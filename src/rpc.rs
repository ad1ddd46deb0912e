//! The JSON-RPC 2.0 request model: reading a request line, routing it by
//! method, and checking each method's params.

use vstd::prelude::*;

verus! {

#[verifier::external_type_specification]
#[verifier::external_body]
pub struct ExJsonValue(serde_json::Value);

pub const PARSE_ERROR: i32 = -32700;
pub const INVALID_REQUEST: i32 = -32600;
pub const METHOD_NOT_FOUND: i32 = -32601;
pub const INVALID_PARAMS: i32 = -32602;
pub const INTERNAL_ERROR: i32 = -32603;

/// Number of results a search returns when the request names no limit.
pub const DEFAULT_SEARCH_LIMIT: u64 = 5;

/// Whether `serde_json` accepts the text as one JSON value.
pub uninterp spec fn is_json_text(s: Seq<char>) -> bool;

/// Whether the JSON value that `serde_json` reads from the text is an object.
pub uninterp spec fn is_json_object_text(s: Seq<char>) -> bool;

/// The text of member `key` of the object that `serde_json` reads from the
/// text, when that member is a JSON string.
pub uninterp spec fn json_text_member(s: Seq<char>, key: Seq<char>) -> Option<Seq<char>>;

/// A member of a JSON object: a string, or any other value.
pub enum JsonMember {
    Text(String),
    Other(serde_json::Value),
}

pub open spec fn member_text(m: JsonMember) -> Option<Seq<char>> {
    match m {
        JsonMember::Text(s) => Some(s@),
        JsonMember::Other(_) => None,
    }
}

/// `i` is the first position of `ms` whose key is `key`.
pub open spec fn first_key_at(ms: Seq<(String, JsonMember)>, key: Seq<char>, i: int) -> bool {
    &&& 0 <= i < ms.len()
    &&& ms[i].0@ == key
    &&& forall|j: int| 0 <= j < i ==> (#[trigger] ms[j]).0@ != key
}

/// The text of the first member named `key`, when it is a string.
pub open spec fn text_member(ms: Seq<(String, JsonMember)>, key: Seq<char>) -> Option<Seq<char>> {
    if exists|i: int| first_key_at(ms, key, i) {
        member_text(ms[choose|i: int| first_key_at(ms, key, i)].1)
    } else {
        None
    }
}

/// Relies on `serde_json::from_str` into a `Value`: it succeeds exactly on the
/// text serde_json accepts, the error being its message; an object is handed
/// back as its members, each string member as its text.
#[verifier::external_body]
fn parse_object(line: &str) -> (r: Result<Option<Vec<(String, JsonMember)>>, String>)
    ensures
        r is Ok <==> is_json_text(line@),
        r matches Ok(o) ==> (o is Some <==> is_json_object_text(line@)),
        r matches Ok(Some(ms)) ==> forall|k: Seq<char>| #[trigger] json_text_member(line@, k)
            == text_member(ms@, k),
{
    match serde_json::from_str::<serde_json::Value>(line) {
        Ok(serde_json::Value::Object(members)) => Ok(Some(members.into_iter().map(|(k, v)| match v {
            serde_json::Value::String(s) => (k, JsonMember::Text(s)),
            other => (k, JsonMember::Other(other)),
        }).collect())),
        Ok(_) => Ok(None),
        Err(e) => Err(e.to_string()),
    }
}

/// Relies on `From<String> for Value`: the JSON string with this text.
#[verifier::external_body]
fn json_string(s: String) -> (r: serde_json::Value) {
    serde_json::Value::from(s)
}

/// The position of the first member named `key`.
fn find_member(ms: &Vec<(String, JsonMember)>, key: &str) -> (r: Option<usize>)
    ensures
        r matches Some(i) ==> first_key_at(ms@, key@, i as int),
        r is None ==> forall|j: int| 0 <= j < ms@.len() ==> (#[trigger] ms@[j]).0@ != key@,
{
    let k = key.to_owned();
    let mut i: usize = 0;
    while i < ms.len()
        invariant
            i <= ms@.len(),
            k@ == key@,
            forall|j: int| 0 <= j < i ==> (#[trigger] ms@[j]).0@ != key@,
        decreases ms@.len() - i,
    {
        if ms[i].0 == k {
            return Some(i);
        }
        i = i + 1;
    }
    None
}

proof fn lemma_first_key_unique(ms: Seq<(String, JsonMember)>, key: Seq<char>, i: int, j: int)
    requires
        first_key_at(ms, key, i),
        first_key_at(ms, key, j),
    ensures
        i == j,
{
    if i < j {
        assert(ms[i].0@ != key);
    } else if j < i {
        assert(ms[j].0@ != key);
    }
}

/// The text of the first member named `key`, when it is a string.
fn member_string(ms: &Vec<(String, JsonMember)>, key: &str) -> (r: Option<String>)
    ensures
        opt_view(r) == text_member(ms@, key@),
{
    match find_member(ms, key) {
        Some(i) => {
            proof {
                let c = choose|c: int| first_key_at(ms@, key@, c);
                lemma_first_key_unique(ms@, key@, i as int, c);
            }
            match &ms[i].1 {
                JsonMember::Text(s) => Some(s.clone()),
                JsonMember::Other(_) => None,
            }
        },
        None => None,
    }
}

/// Takes the first member named `key` out.
fn take_member(ms: &mut Vec<(String, JsonMember)>, key: &str) -> (r: Option<JsonMember>) {
    match find_member(ms, key) {
        Some(i) => Some(ms.remove(i).1),
        None => None,
    }
}

pub open spec fn opt_view(o: Option<String>) -> Option<Seq<char>> {
    match o {
        Some(s) => Some(s@),
        None => None,
    }
}

/// Relies on `Value::get`: the member `key` of an object, if it has one.
#[verifier::external_body]
fn json_member(v: &serde_json::Value, key: &str) -> (r: Option<serde_json::Value>) {
    v.get(key).cloned()
}

/// Relies on `Value::is_object`.
#[verifier::external_body]
fn json_is_object(v: &serde_json::Value) -> (r: bool) {
    v.is_object()
}

/// Relies on `Value::is_null`.
#[verifier::external_body]
fn json_is_null(v: &serde_json::Value) -> (r: bool) {
    v.is_null()
}

/// Relies on `Value::as_str`: the text of a JSON string.
#[verifier::external_body]
fn json_as_string(v: &serde_json::Value) -> (r: Option<String>) {
    v.as_str().map(|s| s.to_owned())
}

/// Relies on `Value::as_u64`: a JSON integer that fits in a `u64`.
#[verifier::external_body]
fn json_as_u64(v: &serde_json::Value) -> (r: Option<u64>) {
    v.as_u64()
}

/// A member of a params object, as found in the request.
pub enum Field<T> {
    Absent,
    Null,
    Given(T),
    WrongType,
}

/// The members of a request's params that the methods read; `is_object` is
/// false when params are absent or not a JSON object.
pub struct RequestParams {
    pub is_object: bool,
    pub document_id: Field<String>,
    pub file_path: Field<String>,
    pub query: Field<String>,
    pub limit: Field<u64>,
}

/// One request line, read. `jsonrpc` and `method` are `None` when absent or
/// not strings; `id` is `None` when absent.
pub struct RpcRequest {
    pub jsonrpc: Option<String>,
    pub method: Option<String>,
    pub params: RequestParams,
    pub id: Option<serde_json::Value>,
}

/// An error response's code and message.
pub struct RpcError {
    pub code: i32,
    pub message: String,
}

impl RpcError {
    pub fn new(code: i32, message: &str) -> (r: Self)
        ensures
            r.code == code,
            r.message@ == message@,
    {
        RpcError { code, message: message.to_owned() }
    }
}

/// Params of `upload_document`.
pub struct UploadDocumentParams {
    pub document_id: Option<String>,
    pub file_path: String,
}

/// Params of `search_document`.
pub struct SearchParams {
    pub query: String,
    pub document_id: Option<String>,
    pub limit: Option<u64>,
}

/// The handler a request goes to, or the error it is answered with.
pub enum Route {
    Ping,
    Upload(UploadDocumentParams),
    Search(SearchParams),
    Reject(RpcError),
}

fn string_field(obj: &serde_json::Value, key: &str) -> Field<String> {
    match json_member(obj, key) {
        None => Field::Absent,
        Some(v) => if json_is_null(&v) {
            Field::Null
        } else {
            match json_as_string(&v) {
                Some(s) => Field::Given(s),
                None => Field::WrongType,
            }
        },
    }
}

fn integer_field(obj: &serde_json::Value, key: &str) -> Field<u64> {
    match json_member(obj, key) {
        None => Field::Absent,
        Some(v) => if json_is_null(&v) {
            Field::Null
        } else {
            match json_as_u64(&v) {
                Some(n) => Field::Given(n),
                None => Field::WrongType,
            }
        },
    }
}

fn read_params(params: Option<JsonMember>) -> RequestParams {
    match params {
        Some(JsonMember::Other(p)) => if json_is_object(&p) {
            RequestParams {
                is_object: true,
                document_id: string_field(&p, "document_id"),
                file_path: string_field(&p, "file_path"),
                query: string_field(&p, "query"),
                limit: integer_field(&p, "limit"),
            }
        } else {
            RequestParams::not_object()
        },
        _ => RequestParams::not_object(),
    }
}

impl RequestParams {
    /// Params that are absent, or not an object.
    pub fn not_object() -> (r: Self)
        ensures
            !r.is_object,
    {
        RequestParams {
            is_object: false,
            document_id: Field::Absent,
            file_path: Field::Absent,
            query: Field::Absent,
            limit: Field::Absent,
        }
    }
}

/// Reads one request line. Text that is not JSON is a parse error; JSON that
/// is not an object is an invalid request.
pub fn read_request(line: &str) -> (r: Result<RpcRequest, RpcError>)
    ensures
        !is_json_text(line@) <==> (r is Err && r->Err_0.code == PARSE_ERROR),
        is_json_text(line@) ==> (r is Ok <==> is_json_object_text(line@)),
        is_json_text(line@) && !is_json_object_text(line@) ==> (r matches Err(e) && e.code
            == INVALID_REQUEST && e.message@ == "Invalid Request"@),
        r matches Err(e) ==> e.code == PARSE_ERROR || e.code == INVALID_REQUEST,
        r matches Ok(req) ==> {
            &&& opt_view(req.jsonrpc) == json_text_member(line@, "jsonrpc"@)
            &&& opt_view(req.method) == json_text_member(line@, "method"@)
        },
{
    let mut members = match parse_object(line) {
        Ok(Some(ms)) => ms,
        Ok(None) => return Err(RpcError::new(INVALID_REQUEST, "Invalid Request")),
        Err(msg) => return Err(RpcError { code: PARSE_ERROR, message: msg }),
    };
    let jsonrpc = member_string(&members, "jsonrpc");
    let method = member_string(&members, "method");
    let params = read_params(take_member(&mut members, "params"));
    let id = match take_member(&mut members, "id") {
        Some(JsonMember::Text(s)) => Some(json_string(s)),
        Some(JsonMember::Other(v)) => Some(v),
        None => None,
    };
    Ok(RpcRequest { jsonrpc, method, params, id })
}

/// The params of `upload_document`, when `p` fits its schema: an object with
/// a string `file_path`, and a `document_id` that is a string, null or absent.
pub open spec fn upload_params_spec(p: RequestParams) -> Option<(Option<Seq<char>>, Seq<char>)> {
    if !p.is_object {
        None
    } else {
        match (p.document_id, p.file_path) {
            (Field::WrongType, _) => None,
            (Field::Given(d), Field::Given(f)) => Some((Some(d@), f@)),
            (_, Field::Given(f)) => Some((None, f@)),
            _ => None,
        }
    }
}

/// The params of `search_document`, when `p` fits its schema: an object with
/// a string `query`, a `document_id` that is a string, null or absent, and a
/// `limit` that is a non-negative integer, null or absent.
pub open spec fn search_params_spec(p: RequestParams) -> Option<(Seq<char>, Option<Seq<char>>, Option<u64>)> {
    if !p.is_object {
        None
    } else {
        match (p.query, p.document_id, p.limit) {
            (Field::Given(q), d, l) => {
                if d is WrongType || l is WrongType {
                    None
                } else {
                    Some((q@, if d is Given { Some(d->Given_0@) } else { None }, if l is Given { Some(l->Given_0) } else { None }))
                }
            },
            _ => None,
        }
    }
}

pub open spec fn upload_view(u: UploadDocumentParams) -> (Option<Seq<char>>, Seq<char>) {
    (
        match u.document_id {
            Some(d) => Some(d@),
            None => None,
        },
        u.file_path@,
    )
}

pub open spec fn search_view(s: SearchParams) -> (Seq<char>, Option<Seq<char>>, Option<u64>) {
    (
        s.query@,
        match s.document_id {
            Some(d) => Some(d@),
            None => None,
        },
        s.limit,
    )
}

/// Checks params against the schema of `upload_document`.
pub fn upload_params(p: RequestParams) -> (r: Option<UploadDocumentParams>)
    ensures
        r is None <==> upload_params_spec(p) is None,
        r matches Some(u) ==> upload_view(u) == upload_params_spec(p)->Some_0,
{
    if !p.is_object {
        return None;
    }
    let document_id = match p.document_id {
        Field::WrongType => return None,
        Field::Given(d) => Some(d),
        _ => None,
    };
    match p.file_path {
        Field::Given(file_path) => Some(UploadDocumentParams { document_id, file_path }),
        _ => None,
    }
}

/// Checks params against the schema of `search_document`.
pub fn search_params(p: RequestParams) -> (r: Option<SearchParams>)
    ensures
        r is None <==> search_params_spec(p) is None,
        r matches Some(s) ==> search_view(s) == search_params_spec(p)->Some_0,
{
    if !p.is_object {
        return None;
    }
    let query = match p.query {
        Field::Given(q) => q,
        _ => return None,
    };
    let document_id = match p.document_id {
        Field::WrongType => return None,
        Field::Given(d) => Some(d),
        _ => None,
    };
    let limit = match p.limit {
        Field::WrongType => return None,
        Field::Given(n) => Some(n),
        _ => None,
    };
    Some(SearchParams { query, document_id, limit })
}

fn is_text(s: &String, lit: &str) -> (r: bool)
    ensures
        r == (s@ == lit@),
{
    let t = lit.to_owned();
    *s == t
}

pub open spec fn is_version(v: Option<String>) -> bool {
    v matches Some(s) && s@ == "2.0"@
}

pub open spec fn names(m: Option<String>, name: &str) -> bool {
    m matches Some(s) && s@ == name@
}

/// The error code a request is answered with before any handler runs, if any:
/// a request without protocol version `2.0`, or without a method, is invalid;
/// a method other than `ping`, `upload_document` and `search_document` is not
/// found; params that do not fit the method's schema are invalid params.
pub open spec fn rejection(req: RpcRequest) -> Option<i32> {
    if !is_version(req.jsonrpc) || req.method is None {
        Some(INVALID_REQUEST)
    } else if names(req.method, "ping") {
        None
    } else if names(req.method, "upload_document") {
        if upload_params_spec(req.params) is None {
            Some(INVALID_PARAMS)
        } else {
            None
        }
    } else if names(req.method, "search_document") {
        if search_params_spec(req.params) is None {
            Some(INVALID_PARAMS)
        } else {
            None
        }
    } else {
        Some(METHOD_NOT_FOUND)
    }
}

/// The message that goes with the code of `rejection`.
pub open spec fn rejection_message(req: RpcRequest) -> Seq<char> {
    if !is_version(req.jsonrpc) {
        "Invalid JSON-RPC version"@
    } else if req.method is None {
        "Invalid Request"@
    } else if rejection(req) == Some(INVALID_PARAMS) {
        "Invalid params"@
    } else {
        "Method not found"@
    }
}

/// The three method names differ from one another.
pub proof fn lemma_method_names_differ()
    ensures
        "ping"@ != "upload_document"@,
        "ping"@ != "search_document"@,
        "upload_document"@ != "search_document"@,
{
    reveal_strlit("ping");
    reveal_strlit("upload_document");
    reveal_strlit("search_document");
    assert("ping"@.len() != "upload_document"@.len());
    assert("ping"@.len() != "search_document"@.len());
    assert("upload_document"@[0] != "search_document"@[0]);
}

/// Sends a request to its handler, or rejects it with the code of `rejection`
/// and the message of `rejection_message`.
pub fn route(req: RpcRequest) -> (r: Route)
    ensures
        r is Reject <==> rejection(req) is Some,
        r matches Route::Reject(e) ==> rejection(req) == Some(e.code) && e.message@
            == rejection_message(req),
        rejection(req) is None && names(req.method, "ping") ==> r is Ping,
        r is Ping ==> names(req.method, "ping"),
        rejection(req) is None && names(req.method, "upload_document") ==> r is Upload,
        rejection(req) is None && names(req.method, "search_document") ==> r is Search,
        r matches Route::Upload(p) ==> names(req.method, "upload_document") && upload_params_spec(
            req.params,
        ) == Some(upload_view(p)),
        r matches Route::Search(p) ==> names(req.method, "search_document") && search_params_spec(
            req.params,
        ) == Some(search_view(p)),
{
    proof {
        lemma_method_names_differ();
    }
    let version_ok = match &req.jsonrpc {
        Some(v) => is_text(v, "2.0"),
        None => false,
    };
    if !version_ok {
        return Route::Reject(RpcError::new(INVALID_REQUEST, "Invalid JSON-RPC version"));
    }
    let method = match req.method {
        Some(m) => m,
        None => return Route::Reject(RpcError::new(INVALID_REQUEST, "Invalid Request")),
    };
    if is_text(&method, "ping") {
        Route::Ping
    } else if is_text(&method, "upload_document") {
        match upload_params(req.params) {
            Some(p) => Route::Upload(p),
            None => Route::Reject(RpcError::new(INVALID_PARAMS, "Invalid params")),
        }
    } else if is_text(&method, "search_document") {
        match search_params(req.params) {
            Some(p) => Route::Search(p),
            None => Route::Reject(RpcError::new(INVALID_PARAMS, "Invalid params")),
        }
    } else {
        Route::Reject(RpcError::new(METHOD_NOT_FOUND, "Method not found"))
    }
}

} // verus!

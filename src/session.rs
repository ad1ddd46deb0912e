//! One request, from its line to its response. Between the steps that need
//! the outside world (reading the file, running the model, talking to the
//! index) the request waits in a `Session`; each step's outcome comes back as
//! an `Event`, and `resume` decides what to do next.

use vstd::prelude::*;
use crate::document::{all_space, is_trim_of, process_text, DocumentError, ProcessedDocument};
use crate::chunker::is_chunking;
use crate::rpc::{
    is_json_object_text, is_json_text, is_version, json_text_member, lemma_method_names_differ,
    names, read_request, rejection, rejection_message, route, search_params_spec, upload_params_spec,
    Route, RpcError, RpcRequest, DEFAULT_SEARCH_LIMIT, INTERNAL_ERROR, INVALID_REQUEST,
    METHOD_NOT_FOUND, PARSE_ERROR,
};
use crate::store::{chunk_payloads, copy_texts, QdrantDocumentPayload};

verus! {

pub open spec fn is_lower_hex(c: char) -> bool {
    ('0' <= c <= '9') || ('a' <= c <= 'f')
}

/// A version-4 UUID in hyphenated lower-case form: hyphens at 8, 13, 18 and
/// 23, version digit `4` at 14, lower-case hex digits elsewhere.
pub open spec fn is_uuid_v4_text(s: Seq<char>) -> bool {
    &&& s.len() == 36
    &&& s[8] == '-' && s[13] == '-' && s[18] == '-' && s[23] == '-'
    &&& s[14] == '4'
    &&& forall|i: int|
        0 <= i < 36 && i != 8 && i != 13 && i != 18 && i != 23 ==> is_lower_hex(#[trigger] s[i])
}

/// Relies on `uuid::Uuid::new_v4`, written by its `Display` impl in the
/// hyphenated lower-case form.
#[verifier::external_body]
fn fresh_document_id() -> (r: String)
    ensures
        is_uuid_v4_text(r@),
{
    uuid::Uuid::new_v4().to_string()
}

/// Result of a successful upload.
pub struct UploadSummary {
    pub document_id: String,
    pub status: String,
    pub chunk_count: usize,
    pub extracted_text: String,
}

/// What a successful request answers.
pub enum RpcResult {
    /// `ping`: `{status: "ok"}`.
    Pong,
    Uploaded(UploadSummary),
    /// The payloads of the nearest stored windows, nearest first.
    Found(Vec<serde_json::Value>),
}

/// One response line: the request's `id` (`None` is written as null) and
/// either a result or an error.
pub struct RpcResponse {
    pub id: Option<serde_json::Value>,
    pub outcome: Result<RpcResult, RpcError>,
}

/// A request waiting for the outcome of an outside step.
pub enum Session {
    /// Waiting for the text of the uploaded file.
    Extracting { id: Option<serde_json::Value>, document_id: String },
    /// Waiting for the vectors of the document's windows.
    EmbeddingChunks { id: Option<serde_json::Value>, document_id: String, doc: ProcessedDocument },
    /// Waiting to learn whether the collection exists.
    CheckingCollection { id: Option<serde_json::Value>, document_id: String, doc: ProcessedDocument },
    /// Waiting for the collection to be created.
    CreatingCollection { id: Option<serde_json::Value>, document_id: String, doc: ProcessedDocument },
    /// Waiting for the points to be written.
    Storing { id: Option<serde_json::Value>, document_id: String, doc: ProcessedDocument },
    /// Waiting for the vector of the query.
    EmbeddingQuery { id: Option<serde_json::Value>, limit: u64, document_id: Option<String> },
    /// Waiting for the search results.
    Searching { id: Option<serde_json::Value> },
}

/// What the caller does next.
pub enum Action {
    /// Write this response; the request is done.
    Reply(RpcResponse),
    /// Read the text out of the file at this path.
    ExtractText(String),
    /// Compute one vector per text, in order, and keep them.
    Embed(Vec<String>),
    /// Find out whether the collection exists.
    CheckCollection,
    /// Create the collection, for vectors of `VECTOR_DIM` values compared by
    /// cosine similarity.
    CreateCollection,
    /// Write one point per payload, pairing each with the vector kept for the
    /// same position, and wait for the write to be acknowledged.
    StorePoints(Vec<QdrantDocumentPayload>),
    /// Search the collection with the kept query vector.
    Search { limit: u64, document_id: Option<String> },
}

/// The outcome of an outside step.
pub enum Event {
    TextExtracted(Result<String, DocumentError>),
    /// The number of vectors computed, or why none were.
    Embedded(Result<usize, String>),
    /// Whether the collection exists.
    CollectionChecked(Result<bool, String>),
    CollectionCreated(Result<(), String>),
    PointsStored(Result<(), String>),
    SearchDone(Result<Vec<serde_json::Value>, String>),
}

pub open spec fn replies_error(a: Action, code: i32) -> bool {
    a matches Action::Reply(resp) && resp.outcome matches Err(e) && e.code == code
}

pub open spec fn replies_error_with(a: Action, code: i32, message: Seq<char>) -> bool {
    a matches Action::Reply(resp) && resp.outcome matches Err(e) && e.code == code && e.message@
        == message
}

pub open spec fn is_reply(r: (Option<Session>, Action)) -> bool {
    r.0 is None && r.1 is Reply
}

/// After a step, the request either waits in a session for an action's
/// outcome, or is answered and done.
pub open spec fn well_paired(r: (Option<Session>, Action)) -> bool {
    r.0 is None <==> r.1 is Reply
}

fn answer(id: Option<serde_json::Value>, outcome: Result<RpcResult, RpcError>) -> (r: (
    Option<Session>,
    Action,
))
    ensures
        r.0 is None,
        r.1 matches Action::Reply(resp) && resp.id == id && resp.outcome == outcome,
{
    (None, Action::Reply(RpcResponse { id, outcome }))
}

fn fail(id: Option<serde_json::Value>, message: String) -> (r: (Option<Session>, Action))
    ensures
        r.0 is None,
        replies_error(r.1, INTERNAL_ERROR),
        r.1 matches Action::Reply(resp) && resp.id == id,
{
    answer(id, Err(RpcError { code: INTERNAL_ERROR, message }))
}

/// Starts on one input line: a line that is not JSON is answered with a
/// parse error and a null id; JSON that is not an object is an invalid
/// request; an object is read as a request and handled as `start_request`
/// handles it.
pub fn start(line: &str) -> (r: (Option<Session>, Action))
    ensures
        well_paired(r),
        !is_json_text(line@) ==> {
            &&& replies_error(r.1, PARSE_ERROR)
            &&& r.1 matches Action::Reply(resp) && resp.id is None
        },
        is_json_text(line@) ==> !replies_error(r.1, PARSE_ERROR),
        is_json_text(line@) && !is_json_object_text(line@) ==> {
            &&& replies_error_with(r.1, INVALID_REQUEST, "Invalid Request"@)
            &&& r.1 matches Action::Reply(resp) && resp.id is None
        },
        is_json_text(line@) && is_json_object_text(line@) ==> {
            let version = json_text_member(line@, "jsonrpc"@);
            let method = json_text_member(line@, "method"@);
            &&& version != Some("2.0"@) ==> replies_error_with(
                r.1,
                INVALID_REQUEST,
                "Invalid JSON-RPC version"@,
            )
            &&& version == Some("2.0"@) && method is None ==> replies_error_with(
                r.1,
                INVALID_REQUEST,
                "Invalid Request"@,
            )
            &&& version == Some("2.0"@) && method == Some("ping"@) ==> (r.1 matches Action::Reply(
                resp,
            ) && resp.outcome matches Ok(RpcResult::Pong))
            &&& version == Some("2.0"@) && method is Some && method != Some("ping"@) && method
                != Some("upload_document"@) && method != Some("search_document"@)
                ==> replies_error_with(
                r.1,
                METHOD_NOT_FOUND,
                "Method not found"@,
            )
        },
{
    match read_request(line) {
        Ok(req) => start_request(req),
        Err(e) => answer(None, Err(e)),
    }
}

/// Starts on a request: a rejected request is answered with the code of
/// `rejection`; `ping` is answered at once; an upload first reads the file,
/// under the given document id or a fresh one; a search with an empty query
/// fails before any outside step, and otherwise first embeds the query.
pub fn start_request(req: RpcRequest) -> (r: (Option<Session>, Action))
    ensures
        well_paired(r),
        r.1 matches Action::Reply(resp) ==> resp.id == req.id,
        rejection(req) matches Some(code) ==> replies_error_with(
            r.1,
            code,
            rejection_message(req),
        ),
        !is_version(req.jsonrpc) ==> replies_error_with(
            r.1,
            INVALID_REQUEST,
            "Invalid JSON-RPC version"@,
        ),
        is_version(req.jsonrpc) && req.method is Some && !names(req.method, "ping") && !names(
            req.method,
            "upload_document",
        ) && !names(req.method, "search_document") ==> replies_error_with(
            r.1,
            METHOD_NOT_FOUND,
            "Method not found"@,
        ),
        rejection(req) is None ==> match req.method {
            Some(m) => {
                &&& m@ == "ping"@ ==> (r.1 matches Action::Reply(resp) && resp.outcome matches Ok(
                    RpcResult::Pong,
                ))
                &&& m@ == "upload_document"@ ==> {
                    let u = upload_params_spec(req.params)->Some_0;
                    &&& r.1 matches Action::ExtractText(path) && path@ == u.1
                    &&& r.0 matches Some(Session::Extracting { id, document_id }) && id == req.id
                        && (match u.0 {
                        Some(d) => document_id@ == d,
                        None => is_uuid_v4_text(document_id@),
                    })
                }
                &&& m@ == "search_document"@ ==> {
                    let s = search_params_spec(req.params)->Some_0;
                    &&& s.0.len() == 0 ==> replies_error(r.1, INTERNAL_ERROR)
                    &&& s.0.len() > 0 ==> {
                        &&& r.1 matches Action::Embed(texts) && texts@.len() == 1 && texts@[0]@
                            == s.0
                        &&& r.0 matches Some(Session::EmbeddingQuery { id, limit, document_id })
                            && id == req.id && limit == (match s.2 {
                            Some(n) => n,
                            None => DEFAULT_SEARCH_LIMIT,
                        }) && (match s.1 {
                            Some(d) => document_id matches Some(x) && x@ == d,
                            None => document_id is None,
                        })
                    }
                }
            },
            None => true,
        },
{
    proof {
        lemma_method_names_differ();
    }
    let ghost req0 = req;
    // the id stays here for the response; routing does not read it
    let id = req.id;
    let method = req.method;
    let params = req.params;
    let routed = route(RpcRequest { jsonrpc: req.jsonrpc, method, params, id: None });
    assert(rejection(req0) == rejection(RpcRequest { id: None, ..req0 }));
    match routed {
        Route::Reject(e) => answer(id, Err(e)),
        Route::Ping => answer(id, Ok(RpcResult::Pong)),
        Route::Upload(p) => {
            let document_id = match p.document_id {
                Some(d) => d,
                None => fresh_document_id(),
            };
            (Some(Session::Extracting { id, document_id }), Action::ExtractText(p.file_path))
        },
        Route::Search(p) => {
            if p.query.as_str().is_empty() {
                return fail(id, "query text cannot be empty".to_owned());
            }
            let limit = match p.limit {
                Some(n) => n,
                None => DEFAULT_SEARCH_LIMIT,
            };
            let mut texts: Vec<String> = Vec::new();
            texts.push(p.query);
            (
                Some(Session::EmbeddingQuery { id, limit, document_id: p.document_id }),
                Action::Embed(texts),
            )
        },
    }
}

/// The upload waits for its points to be written: one payload per window,
/// in order, each tagged with the document id.
pub open spec fn stores_points(
    r: (Option<Session>, Action),
    id: Option<serde_json::Value>,
    document_id: String,
    doc: ProcessedDocument,
) -> bool {
    &&& r.0 matches Some(Session::Storing { id: i, document_id: d, doc: c }) && i == id && d
        == document_id && c == doc
    &&& r.1 matches Action::StorePoints(ps) && ps@.len() == doc.chunks@.len() && forall|k: int|
        0 <= k < ps@.len() ==> #[trigger] ps@[k].view() == (document_id@, doc.chunks@[k]@)
}

fn store(id: Option<serde_json::Value>, document_id: String, doc: ProcessedDocument) -> (r: (
    Option<Session>,
    Action,
))
    ensures
        stores_points(r, id, document_id, doc),
{
    let points = chunk_payloads(&document_id, &doc.chunks);
    (Some(Session::Storing { id, document_id, doc }), Action::StorePoints(points))
}

impl Session {
    /// The id of the request that waits in this session.
    pub open spec fn request_id(&self) -> Option<serde_json::Value> {
        match *self {
            Session::Extracting { id, .. } => id,
            Session::EmbeddingChunks { id, .. } => id,
            Session::CheckingCollection { id, .. } => id,
            Session::CreatingCollection { id, .. } => id,
            Session::Storing { id, .. } => id,
            Session::EmbeddingQuery { id, .. } => id,
            Session::Searching { id } => id,
        }
    }
}

/// Decides the next step of a waiting request from the outcome of its
/// outside step. Every failure, and an outcome that does not belong to the
/// step waited for, is answered with an internal error.
pub fn resume(s: Session, e: Event) -> (r: (Option<Session>, Action))
    ensures
        well_paired(r),
        r.1 matches Action::Reply(resp) ==> resp.id == s.request_id(),
        match (s, e) {
            (Session::Extracting { id, document_id }, Event::TextExtracted(Ok(raw))) => {
                if all_space(raw@) {
                    replies_error(r.1, INTERNAL_ERROR)
                } else {
                    &&& (r.0 matches Some(Session::EmbeddingChunks { id: i, document_id: d, doc })
                        && i == id && d == document_id && is_trim_of(raw@, doc.text@)
                        && is_chunking(doc.text@, doc.chunk_views()) && (r.1 matches Action::Embed(
                        texts,
                    ) && texts@.map_values(|t: String| t@) == doc.chunk_views()))
                }
            },
            (
                Session::EmbeddingChunks { id, document_id, doc },
                Event::Embedded(Ok(n)),
            ) => if n == doc.chunks@.len() {
                &&& r.0 matches Some(Session::CheckingCollection { id: i, document_id: d, doc: c })
                    && i == id && d == document_id && c == doc
                &&& r.1 is CheckCollection
            } else {
                replies_error(r.1, INTERNAL_ERROR)
            },
            (
                Session::CheckingCollection { id, document_id, doc },
                Event::CollectionChecked(Ok(exists)),
            ) => if exists {
                stores_points(r, id, document_id, doc)
            } else {
                &&& r.0 matches Some(Session::CreatingCollection { id: i, document_id: d, doc: c })
                    && i == id && d == document_id && c == doc
                &&& r.1 is CreateCollection
            },
            (
                Session::CreatingCollection { id, document_id, doc },
                Event::CollectionCreated(Ok(())),
            ) => stores_points(r, id, document_id, doc),
            (Session::Storing { id, document_id, doc }, Event::PointsStored(Ok(()))) => {
                r.1 matches Action::Reply(resp) && resp.outcome matches Ok(
                    RpcResult::Uploaded(u),
                ) && u.document_id@ == document_id@ && u.status@ == "processed"@ && u.chunk_count
                    == doc.chunks@.len() && u.extracted_text@ == doc.text@
            },
            (Session::EmbeddingQuery { id, limit, document_id }, Event::Embedded(Ok(n))) => if n
                >= 1 {
                &&& r.0 matches Some(Session::Searching { id: i }) && i == id
                &&& r.1 matches Action::Search { limit: l, document_id: d } && l == limit && d
                    == document_id
            } else {
                replies_error(r.1, INTERNAL_ERROR)
            },
            (Session::Searching { id }, Event::SearchDone(Ok(results))) => {
                r.1 matches Action::Reply(resp) && resp.outcome == Ok::<RpcResult, RpcError>(
                    RpcResult::Found(results),
                )
            },
            _ => replies_error(r.1, INTERNAL_ERROR),
        },
{
    match s {
        Session::Extracting { id, document_id } => match e {
            Event::TextExtracted(Ok(raw)) => match process_text(raw.as_str()) {
                Ok(doc) => {
                    let texts = copy_texts(&doc.chunks);
                    assert(texts@.map_values(|t: String| t@) =~= doc.chunk_views());
                    (Some(Session::EmbeddingChunks { id, document_id, doc }), Action::Embed(texts))
                },
                Err(err) => fail(id, err.message()),
            },
            Event::TextExtracted(Err(err)) => fail(id, err.message()),
            _ => fail(id, "unexpected step outcome".to_owned()),
        },
        Session::EmbeddingChunks { id, document_id, doc } => match e {
            Event::Embedded(Ok(n)) => {
                if n == doc.chunks.len() {
                    (
                        Some(Session::CheckingCollection { id, document_id, doc }),
                        Action::CheckCollection,
                    )
                } else {
                    fail(id, "embedding count does not match chunk count".to_owned())
                }
            },
            Event::Embedded(Err(msg)) => fail(id, msg),
            _ => fail(id, "unexpected step outcome".to_owned()),
        },
        Session::CheckingCollection { id, document_id, doc } => match e {
            Event::CollectionChecked(Ok(true)) => store(id, document_id, doc),
            Event::CollectionChecked(Ok(false)) => (
                Some(Session::CreatingCollection { id, document_id, doc }),
                Action::CreateCollection,
            ),
            Event::CollectionChecked(Err(msg)) => fail(id, msg),
            _ => fail(id, "unexpected step outcome".to_owned()),
        },
        Session::CreatingCollection { id, document_id, doc } => match e {
            Event::CollectionCreated(Ok(())) => store(id, document_id, doc),
            Event::CollectionCreated(Err(msg)) => fail(id, msg),
            _ => fail(id, "unexpected step outcome".to_owned()),
        },
        Session::Storing { id, document_id, doc } => match e {
            Event::PointsStored(Ok(())) => {
                let chunk_count = doc.chunks.len();
                let summary = UploadSummary {
                    document_id,
                    status: "processed".to_owned(),
                    chunk_count,
                    extracted_text: doc.text,
                };
                answer(id, Ok(RpcResult::Uploaded(summary)))
            },
            Event::PointsStored(Err(msg)) => fail(id, msg),
            _ => fail(id, "unexpected step outcome".to_owned()),
        },
        Session::EmbeddingQuery { id, limit, document_id } => match e {
            Event::Embedded(Ok(n)) => {
                if n >= 1 {
                    (Some(Session::Searching { id }), Action::Search { limit, document_id })
                } else {
                    fail(id, "missing query embedding".to_owned())
                }
            },
            Event::Embedded(Err(msg)) => fail(id, msg),
            _ => fail(id, "unexpected step outcome".to_owned()),
        },
        Session::Searching { id } => match e {
            Event::SearchDone(Ok(results)) => answer(id, Ok(RpcResult::Found(results))),
            Event::SearchDone(Err(msg)) => fail(id, msg),
            _ => fail(id, "unexpected step outcome".to_owned()),
        },
    }
}

} // verus!

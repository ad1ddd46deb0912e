use rpc_worker::document::DocumentError;
use rpc_worker::rpc::{
    read_request, route, search_params, upload_params, Field, RequestParams, Route, RpcRequest,
    INTERNAL_ERROR, INVALID_PARAMS, INVALID_REQUEST, METHOD_NOT_FOUND, PARSE_ERROR,
};
use rpc_worker::session::{resume, start, Action, Event, RpcResponse, RpcResult, Session};

fn reply(step: (Option<Session>, Action)) -> RpcResponse {
    assert!(step.0.is_none());
    match step.1 {
        Action::Reply(resp) => resp,
        _ => panic!("expected a reply"),
    }
}

fn error_code(resp: &RpcResponse) -> Option<i32> {
    resp.outcome.as_ref().err().map(|e| e.code)
}

#[test]
fn parse_error_for_invalid_json() {
    let response = reply(start("{invalid json}"));
    assert_eq!(error_code(&response), Some(-32700));
    assert!(response.id.is_none());
}

#[test]
fn wrong_version_is_invalid_request() {
    let response = reply(start(r#"{"jsonrpc":"1.0","method":"ping","id":7}"#));
    assert_eq!(error_code(&response), Some(INVALID_REQUEST));
    assert_eq!(response.id, Some(serde_json::Value::from(7)));
    let response = reply(start(r#"{"method":"ping","id":"a"}"#));
    assert_eq!(error_code(&response), Some(-32600));
}

#[test]
fn unknown_method_is_not_found() {
    let response = reply(start(r#"{"jsonrpc":"2.0","method":"explode","id":1}"#));
    assert_eq!(error_code(&response), Some(METHOD_NOT_FOUND));
    assert_eq!(METHOD_NOT_FOUND, -32601);
}

#[test]
fn non_object_json_is_invalid_request() {
    let response = reply(start("[1, 2]"));
    assert_eq!(error_code(&response), Some(INVALID_REQUEST));
    assert!(response.id.is_none());
    let response = reply(start("42"));
    assert_ne!(error_code(&response), Some(PARSE_ERROR));
}

#[test]
fn ping_answers_ok_and_echoes_id() {
    let response = reply(start(r#"{"jsonrpc":"2.0","method":"ping","id":"abc"}"#));
    assert!(matches!(response.outcome, Ok(RpcResult::Pong)));
    assert_eq!(response.id, Some(serde_json::Value::from("abc")));
    let response = reply(start(r#"{"jsonrpc":"2.0","method":"ping"}"#));
    assert!(response.id.is_none());
}

#[test]
fn upload_without_file_path_is_invalid_params() {
    let response = reply(start(r#"{"jsonrpc":"2.0","method":"upload_document","params":{},"id":1}"#));
    assert_eq!(error_code(&response), Some(INVALID_PARAMS));
    let response = reply(start(r#"{"jsonrpc":"2.0","method":"upload_document","id":1}"#));
    assert_eq!(error_code(&response), Some(-32602));
    let response = reply(start(
        r#"{"jsonrpc":"2.0","method":"upload_document","params":{"file_path":"a.pdf","document_id":5},"id":1}"#,
    ));
    assert_eq!(error_code(&response), Some(-32602));
}

#[test]
fn search_with_bad_limit_is_invalid_params() {
    let response = reply(start(
        r#"{"jsonrpc":"2.0","method":"search_document","params":{"query":"x","limit":-1},"id":1}"#,
    ));
    assert_eq!(error_code(&response), Some(INVALID_PARAMS));
    let response = reply(start(
        r#"{"jsonrpc":"2.0","method":"search_document","params":{"limit":3},"id":1}"#,
    ));
    assert_eq!(error_code(&response), Some(INVALID_PARAMS));
}

#[test]
fn empty_query_fails_before_any_outside_step() {
    let response = reply(start(
        r#"{"jsonrpc":"2.0","method":"search_document","params":{"query":""},"id":3}"#,
    ));
    assert_eq!(error_code(&response), Some(INTERNAL_ERROR));
    assert_eq!(response.id, Some(serde_json::Value::from(3)));
}

#[test]
fn search_embeds_query_then_searches_with_defaults() {
    let (session, action) = start(
        r#"{"jsonrpc":"2.0","method":"search_document","params":{"query":"neural"},"id":4}"#,
    );
    match action {
        Action::Embed(texts) => assert_eq!(texts, vec!["neural".to_string()]),
        _ => panic!("expected the query to be embedded"),
    }
    let (session, action) = resume(session.unwrap(), Event::Embedded(Ok(1)));
    match action {
        Action::Search { limit, document_id } => {
            assert_eq!(limit, 5);
            assert!(document_id.is_none());
        }
        _ => panic!("expected a search"),
    }
    let hits = vec![serde_json::Value::from("hit")];
    let response = reply(resume(session.unwrap(), Event::SearchDone(Ok(hits.clone()))));
    assert_eq!(response.id, Some(serde_json::Value::from(4)));
    match response.outcome {
        Ok(RpcResult::Found(found)) => assert_eq!(found, hits),
        _ => panic!("expected results"),
    }
}

#[test]
fn upload_flow_for_short_document() {
    let (session, action) = start(
        r#"{"jsonrpc":"2.0","method":"upload_document","params":{"file_path":"/docs/a.pdf","document_id":"doc-1"},"id":9}"#,
    );
    match action {
        Action::ExtractText(path) => assert_eq!(path, "/docs/a.pdf"),
        _ => panic!("expected text extraction"),
    }
    let (session, action) = resume(session.unwrap(), Event::TextExtracted(Ok("hello lexai".to_string())));
    match action {
        Action::Embed(texts) => assert_eq!(texts, vec!["hello lexai".to_string()]),
        _ => panic!("expected the chunks to be embedded"),
    }
    let (session, action) = resume(session.unwrap(), Event::Embedded(Ok(1)));
    assert!(matches!(action, Action::CheckCollection));
    let (session, action) = resume(session.unwrap(), Event::CollectionChecked(Ok(false)));
    assert!(matches!(action, Action::CreateCollection));
    let (session, action) = resume(session.unwrap(), Event::CollectionCreated(Ok(())));
    match action {
        Action::StorePoints(points) => {
            assert_eq!(points.len(), 1);
            assert_eq!(points[0].document_id, "doc-1");
            assert_eq!(points[0].chunk_text, "hello lexai");
        }
        _ => panic!("expected points to be stored"),
    }
    let response = reply(resume(session.unwrap(), Event::PointsStored(Ok(()))));
    assert_eq!(response.id, Some(serde_json::Value::from(9)));
    match response.outcome {
        Ok(RpcResult::Uploaded(summary)) => {
            assert_eq!(summary.chunk_count, 1);
            assert_eq!(summary.status, "processed");
            assert_eq!(summary.document_id, "doc-1");
            assert_eq!(summary.extracted_text, "hello lexai");
        }
        _ => panic!("expected an upload summary"),
    }
}

#[test]
fn search_scoped_to_uploaded_document() {
    let (session, _) = start(
        r#"{"jsonrpc":"2.0","method":"upload_document","params":{"file_path":"a.pdf","document_id":"doc-1"},"id":1}"#,
    );
    let (session, _) = resume(session.unwrap(), Event::TextExtracted(Ok("first chunk".to_string())));
    let (session, _) = resume(session.unwrap(), Event::Embedded(Ok(1)));
    let (_, action) = resume(session.unwrap(), Event::CollectionChecked(Ok(true)));
    match action {
        Action::StorePoints(points) => assert!(points.iter().all(|p| p.document_id == "doc-1")),
        _ => panic!("expected points to be stored"),
    }
    let (session, _) = start(
        r#"{"jsonrpc":"2.0","method":"search_document","params":{"query":"chunk","document_id":"doc-1","limit":2},"id":2}"#,
    );
    let (_, action) = resume(session.unwrap(), Event::Embedded(Ok(1)));
    match action {
        Action::Search { limit, document_id } => {
            assert_eq!(limit, 2);
            assert_eq!(document_id, Some("doc-1".to_string()));
        }
        _ => panic!("expected a search"),
    }
}

#[test]
fn upload_generates_document_id_when_absent() {
    let (session, _) = start(
        r#"{"jsonrpc":"2.0","method":"upload_document","params":{"file_path":"a.pdf","document_id":null},"id":1}"#,
    );
    match session {
        Some(Session::Extracting { document_id, .. }) => {
            assert_eq!(document_id.len(), 36);
            assert_eq!(document_id.matches('-').count(), 4);
        }
        _ => panic!("expected to wait for the text"),
    }
}

#[test]
fn blank_extracted_text_is_internal_error() {
    let (session, _) = start(
        r#"{"jsonrpc":"2.0","method":"upload_document","params":{"file_path":"a.pdf"},"id":1}"#,
    );
    let response = reply(resume(session.unwrap(), Event::TextExtracted(Ok(" \n ".to_string()))));
    assert_eq!(error_code(&response), Some(-32603));
    let (session, _) = start(
        r#"{"jsonrpc":"2.0","method":"upload_document","params":{"file_path":"a.pdf"},"id":1}"#,
    );
    let missing = DocumentError::FileNotFound("a.pdf".to_string());
    let response = reply(resume(session.unwrap(), Event::TextExtracted(Err(missing))));
    assert_eq!(error_code(&response), Some(-32603));
}

#[test]
fn mismatched_embedding_count_and_outside_failures_are_internal_errors() {
    let (session, _) = start(
        r#"{"jsonrpc":"2.0","method":"upload_document","params":{"file_path":"a.pdf"},"id":1}"#,
    );
    let (session, _) = resume(session.unwrap(), Event::TextExtracted(Ok("text".to_string())));
    let response = reply(resume(session.unwrap(), Event::Embedded(Ok(2))));
    assert_eq!(error_code(&response), Some(INTERNAL_ERROR));
    let (session, _) = start(
        r#"{"jsonrpc":"2.0","method":"search_document","params":{"query":"q"},"id":1}"#,
    );
    let (session, _) = resume(session.unwrap(), Event::Embedded(Ok(1)));
    let response = reply(resume(session.unwrap(), Event::SearchDone(Err("index down".to_string()))));
    assert_eq!(error_code(&response), Some(INTERNAL_ERROR));
    assert_eq!(response.outcome.err().unwrap().message, "index down");
}

#[test]
fn unexpected_event_is_internal_error() {
    let (session, _) = start(
        r#"{"jsonrpc":"2.0","method":"search_document","params":{"query":"q"},"id":1}"#,
    );
    let response = reply(resume(session.unwrap(), Event::PointsStored(Ok(()))));
    assert_eq!(error_code(&response), Some(INTERNAL_ERROR));
}

#[test]
fn read_request_reads_fields() {
    let req = read_request(r#"{"jsonrpc":"2.0","method":"m","params":{"query":"q","limit":3}}"#)
        .ok()
        .unwrap();
    assert_eq!(req.jsonrpc.as_deref(), Some("2.0"));
    assert_eq!(req.method.as_deref(), Some("m"));
    assert!(req.id.is_none());
    assert!(req.params.is_object);
    assert!(matches!(req.params.limit, Field::Given(3)));
    assert!(matches!(req.params.file_path, Field::Absent));
    let err = read_request("{").err().unwrap();
    assert_eq!(err.code, PARSE_ERROR);
}

fn params(document_id: Field<String>, file_path: Field<String>) -> RequestParams {
    RequestParams {
        is_object: true,
        document_id,
        file_path,
        query: Field::Absent,
        limit: Field::Absent,
    }
}

#[test]
fn upload_params_follow_schema() {
    let p = upload_params(params(Field::Null, Field::Given("f".to_string()))).unwrap();
    assert!(p.document_id.is_none());
    assert_eq!(p.file_path, "f");
    assert!(upload_params(params(Field::Given("d".to_string()), Field::WrongType)).is_none());
    let mut not_object = params(Field::Absent, Field::Given("f".to_string()));
    not_object.is_object = false;
    assert!(upload_params(not_object).is_none());
}

#[test]
fn search_params_follow_schema() {
    let p = RequestParams {
        is_object: true,
        document_id: Field::Given("d".to_string()),
        file_path: Field::WrongType,
        query: Field::Given("q".to_string()),
        limit: Field::Null,
    };
    let s = search_params(p).unwrap();
    assert_eq!(s.query, "q");
    assert_eq!(s.document_id.as_deref(), Some("d"));
    assert!(s.limit.is_none());
}

#[test]
fn route_by_method_name() {
    let req = |version: Option<&str>, method: Option<&str>| RpcRequest {
        jsonrpc: version.map(|v| v.to_string()),
        method: method.map(|m| m.to_string()),
        params: RequestParams::not_object(),
        id: None,
    };
    assert!(matches!(route(req(Some("2.0"), Some("ping"))), Route::Ping));
    assert!(matches!(route(req(None, Some("ping"))), Route::Reject(e) if e.code == INVALID_REQUEST));
    assert!(matches!(route(req(Some("2.0"), None)), Route::Reject(e) if e.code == INVALID_REQUEST));
    assert!(matches!(route(req(Some("2.0"), Some("PING"))), Route::Reject(e) if e.code == METHOD_NOT_FOUND));
    assert!(matches!(route(req(Some("2.0"), Some("search_document"))), Route::Reject(e) if e.code == INVALID_PARAMS));
}

#[test]
fn rejections_carry_their_messages() {
    let message = |line: &str| reply(start(line)).outcome.err().unwrap().message;
    assert_eq!(message(r#"{"jsonrpc":"2.0","method":"explode","id":1}"#), "Method not found");
    assert_eq!(message(r#"{"jsonrpc":"1.0","method":"ping"}"#), "Invalid JSON-RPC version");
    assert_eq!(message(r#"{"jsonrpc":"2.0","method":"upload_document"}"#), "Invalid params");
    assert_eq!(message(r#"{"jsonrpc":"2.0","id":1}"#), "Invalid Request");
    assert_eq!(message("[]"), "Invalid Request");
}

#[test]
fn generated_document_id_is_a_version_four_uuid() {
    let (session, _) = start(r#"{"jsonrpc":"2.0","method":"upload_document","params":{"file_path":"a.pdf"}}"#);
    match session {
        Some(Session::Extracting { document_id, .. }) => {
            let cs: Vec<char> = document_id.chars().collect();
            assert_eq!(cs.len(), 36);
            for (i, c) in cs.iter().enumerate() {
                if [8, 13, 18, 23].contains(&i) {
                    assert_eq!(*c, '-');
                } else {
                    assert!(c.is_ascii_hexdigit() && !c.is_ascii_uppercase());
                }
            }
            assert_eq!(cs[14], '4');
        }
        _ => panic!("expected to wait for the text"),
    }
}

#[test]
fn failed_collection_check_is_internal_error() {
    let (session, _) = start(r#"{"jsonrpc":"2.0","method":"upload_document","params":{"file_path":"a.pdf"},"id":2}"#);
    let (session, _) = resume(session.unwrap(), Event::TextExtracted(Ok("text".to_string())));
    let (session, _) = resume(session.unwrap(), Event::Embedded(Ok(1)));
    let response = reply(resume(session.unwrap(), Event::CollectionChecked(Err("down".to_string()))));
    assert_eq!(error_code(&response), Some(INTERNAL_ERROR));
    assert_eq!(response.id, Some(serde_json::Value::from(2)));
}

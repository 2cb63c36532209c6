use std::cell::Cell;
use yew_server_hook::client::{
    build_request, call_result, is_success_status, json_content_type, response_error_message,
    Reply,
};
use yew_server_hook::context::{extract, ExtractError, RequestParts, RequestStore};
use yew_server_hook::handler::{
    close_scope, decode_failure, decode_step, handle_request, open_scope, settle, HandlerOutcome,
};
use yew_server_hook::method::{Encoding, HttpMethod};
use yew_server_hook::plan::plan_endpoint;
use yew_server_hook::signature::{FnInput, ParamPattern, ReturnType, TypeRef};

fn parts() -> RequestParts {
    RequestParts {
        method: "POST".to_string(),
        uri: "/api/test".to_string(),
        headers: vec![],
    }
}

#[test]
fn malformed_payload_is_a_bad_request() {
    let mut store = RequestStore::new();
    let called = Cell::new(false);
    let r: HandlerOutcome<u32, String> = handle_request(
        &mut store,
        4,
        parts(),
        Encoding::BodyJson,
        Err::<u32, String>("expected value at line 1 column 1".to_string()),
        |_s: &RequestStore, p: u32| {
            called.set(true);
            Ok(p)
        },
    );
    assert!(!called.get());
    assert_eq!(r.status(), Some(400));
    match r {
        HandlerOutcome::BadRequest(m) => {
            assert!(!m.is_empty());
            assert_eq!(m, "Invalid request: expected value at line 1 column 1");
        }
        _ => panic!("expected a bad request"),
    }
    assert!(matches!(extract(&store, 4), Err(ExtractError::MissingParts(_))));
}

#[test]
fn malformed_query_is_a_bad_request() {
    assert_eq!(
        decode_failure(Encoding::QueryString, "missing field `id`"),
        "Invalid query parameters: missing field `id`"
    );
    assert!(!decode_failure(Encoding::QueryString, "").is_empty());
}

#[test]
fn handler_provides_then_clears_on_success() {
    let mut store = RequestStore::new();
    let r: HandlerOutcome<String, String> = handle_request(
        &mut store,
        8,
        parts(),
        Encoding::BodyJson,
        Ok::<u32, String>(3),
        |s: &RequestStore, p: u32| match extract(s, 8) {
            Ok(seen) => Ok(format!("{} {}", seen.uri, p)),
            Err(e) => Err(e.message()),
        },
    );
    assert_eq!(r, HandlerOutcome::Success("/api/test 3".to_string()));
    assert_eq!(r.status(), Some(200));
    assert!(matches!(extract(&store, 8), Err(ExtractError::MissingParts(_))));
}

#[test]
fn handler_clears_on_business_error() {
    let mut store = RequestStore::new();
    let r: HandlerOutcome<u32, String> = handle_request(
        &mut store,
        8,
        parts(),
        Encoding::BodyJson,
        Ok::<u32, String>(3),
        |_s: &RequestStore, _p: u32| Err("not found".to_string()),
    );
    assert_eq!(r, HandlerOutcome::Failure("not found".to_string()));
    assert_eq!(r.status(), None);
    assert!(matches!(extract(&store, 8), Err(ExtractError::MissingParts(_))));
}

#[test]
fn get_request_carries_query_string() {
    let q = serde_urlencoded::to_string(vec![("query", "x"), ("limit", "5")]).unwrap();
    let r = build_request(HttpMethod::Get, "/api/search", Some(q.clone()));
    assert_eq!(r.url, "/api/search?query=x&limit=5");
    assert_eq!(r.body, None);
    let back: Vec<(String, String)> =
        serde_urlencoded::from_str(r.url.split_once('?').unwrap().1).unwrap();
    assert_eq!(
        back,
        vec![
            ("query".to_string(), "x".to_string()),
            ("limit".to_string(), "5".to_string())
        ]
    );
}

#[test]
fn body_request_carries_json() {
    let r = build_request(HttpMethod::Put, "/api/item", Some("{\"id\":1}".to_string()));
    assert_eq!(r.url, "/api/item");
    assert_eq!(r.body, Some("{\"id\":1}".to_string()));
    let r = build_request(HttpMethod::Get, "/api/all", None);
    assert_eq!(r.url, "/api/all");
    assert_eq!(r.body, None);
    assert_eq!(json_content_type(), "application/json");
}

#[test]
fn success_status_range() {
    assert!(is_success_status(200));
    assert!(is_success_status(299));
    assert!(!is_success_status(199));
    assert!(!is_success_status(300));
    assert!(!is_success_status(404));
}

#[test]
fn caller_reads_error_member() {
    let r: Result<u32, String> = call_result(Ok(Reply::Failure {
        status: 404,
        text: Some("{\"error\":\"bad id\"}".to_string()),
    }));
    assert_eq!(r, Err("bad id".to_string()));
}

#[test]
fn caller_reads_message_member() {
    assert_eq!(
        response_error_message(422, Some("{\"message\":\"too long\",\"code\":7}".to_string())),
        "too long"
    );
    // "error" wins over "message"
    assert_eq!(
        response_error_message(400, Some("{\"message\":\"m\",\"error\":\"e\"}".to_string())),
        "e"
    );
    // a non-string member is not a message
    assert_eq!(
        response_error_message(400, Some("{\"error\":5}".to_string())),
        "{\"error\":5}"
    );
}

#[test]
fn caller_falls_back_to_text_then_status() {
    let r: Result<u32, String> = call_result(Ok(Reply::Failure {
        status: 500,
        text: Some("oops".to_string()),
    }));
    assert_eq!(r, Err("oops".to_string()));
    let r: Result<u32, String> = call_result(Ok(Reply::Failure { status: 500, text: None }));
    assert_eq!(r, Err("Request failed with status 500".to_string()));
    assert_eq!(response_error_message(7, None), "Request failed with status 7");
}

#[test]
fn caller_reports_transport_and_parse_failures() {
    let r: Result<u32, String> = call_result(Err("connection refused".to_string()));
    assert_eq!(r, Err("Failed to fetch data: connection refused".to_string()));
    let r: Result<u32, String> = call_result(Ok(Reply::Success(Err("eof".to_string()))));
    assert_eq!(r, Err("Failed to parse response: eof".to_string()));
    let r: Result<u32, String> = call_result(Ok(Reply::Success(Ok(9))));
    assert_eq!(r, Ok(9));
}

#[test]
fn end_to_end_post_endpoint() {
    let inputs = vec![FnInput {
        pattern: ParamPattern::Ident("id".to_string()),
        ty: TypeRef { text: "i32".to_string(), head: Some("i32".to_string()) },
    }];
    let plan = plan_endpoint(
        &vec![("path".to_string(), "/api/test".to_string())],
        "get_test_by_id",
        &inputs,
        &ReturnType::Default,
    )
    .unwrap();
    assert_eq!(plan.method, HttpMethod::Post);

    // client side: the container {id: 7} as a JSON body
    let mut object = serde_json::Map::new();
    object.insert("id".to_string(), serde_json::Value::from(7));
    let body = serde_json::to_string(&serde_json::Value::Object(object)).unwrap();
    assert_eq!(body, "{\"id\":7}");
    let request = build_request(plan.method, plan.path.as_str(), Some(body));
    assert_eq!(request.url, "/api/test");

    // server side: decode, run the logic, encode the payload
    let mut store = RequestStore::new();
    let decoded = serde_json::from_str::<serde_json::Value>(request.body.as_ref().unwrap())
        .map_err(|e| e.to_string())
        .and_then(|v| v.get("id").and_then(|i| i.as_i64()).ok_or("missing field `id`".to_string()));
    let outcome: HandlerOutcome<(i64, String), String> = handle_request(
        &mut store,
        1,
        parts(),
        plan.encoding,
        decoded,
        |_s: &RequestStore, id: i64| Ok((id, format!("test{}", id))),
    );
    let payload = match outcome {
        HandlerOutcome::Success(v) => serde_json::to_string(&v).unwrap(),
        other => panic!("unexpected {:?}", other),
    };

    // back on the client
    let parsed = serde_json::from_str::<(i64, String)>(&payload).map_err(|e| e.to_string());
    let r = call_result(Ok(Reply::Success(parsed)));
    assert_eq!(r, Ok((7, "test7".to_string())));
}

#[test]
fn request_scope_provides_then_clears() {
    let mut store = RequestStore::new();
    let scope = open_scope(&mut store, 11, parts());
    assert_eq!(scope.key(), 11);
    assert_eq!(extract(&store, 11), Ok(parts()));
    close_scope(&mut store, scope);
    assert!(matches!(extract(&store, 11), Err(ExtractError::MissingParts(_))));
}

#[test]
fn decode_step_passes_parameters_or_stops_with_400() {
    let ok: Result<u8, HandlerOutcome<u8, u8>> = decode_step(Encoding::QueryString, Ok(4u8));
    assert_eq!(ok, Ok(4));
    let bad: Result<u8, HandlerOutcome<u8, u8>> =
        decode_step(Encoding::QueryString, Err::<u8, String>("missing field `id`".to_string()));
    let outcome = bad.unwrap_err();
    assert_eq!(outcome.status(), Some(400));
    assert_eq!(
        outcome,
        HandlerOutcome::BadRequest("Invalid query parameters: missing field `id`".to_string())
    );
}

#[test]
fn settle_reports_logic_result() {
    assert_eq!(settle::<u8, String>(Ok(1)), HandlerOutcome::Success(1));
    assert_eq!(
        settle::<u8, String>(Err("gone".to_string())),
        HandlerOutcome::Failure("gone".to_string())
    );
}

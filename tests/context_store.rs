use yew_server_hook::context::{
    clear_request_parts, extract, extract_with_state, provide_request_parts, ExtractError,
    RequestParts, RequestStore,
};

fn parts(method: &str) -> RequestParts {
    RequestParts {
        method: method.to_string(),
        uri: "/api/test?id=7".to_string(),
        headers: vec![("cookie".to_string(), "session=abc".to_string())],
    }
}

#[test]
fn extract_before_provide_is_missing() {
    let store = RequestStore::new();
    match extract(&store, 1) {
        Err(ExtractError::MissingParts(m)) => {
            assert_eq!(m, "Request parts not found. Make sure provide_request_parts() was called.")
        }
        other => panic!("unexpected {:?}", other),
    }
}

#[test]
fn extract_after_provide_then_clear() {
    let mut store = RequestStore::new();
    provide_request_parts(&mut store, 1, parts("GET"));
    assert_eq!(extract(&store, 1), Ok(parts("GET")));
    // extraction leaves the entry in place
    assert_eq!(extract(&store, 1), Ok(parts("GET")));
    // other keys are independent
    assert!(matches!(extract(&store, 2), Err(ExtractError::MissingParts(_))));
    clear_request_parts(&mut store, 1);
    assert!(matches!(extract(&store, 1), Err(ExtractError::MissingParts(_))));
}

#[test]
fn provide_overwrites_earlier_entry() {
    let mut store = RequestStore::new();
    provide_request_parts(&mut store, 3, parts("GET"));
    provide_request_parts(&mut store, 3, parts("POST"));
    assert_eq!(extract(&store, 3), Ok(parts("POST")));
}

#[test]
fn clear_without_entry_is_a_no_op() {
    let mut store = RequestStore::new();
    clear_request_parts(&mut store, 9);
    assert!(matches!(extract(&store, 9), Err(ExtractError::MissingParts(_))));
}

#[test]
fn extract_with_state_projects_and_reports_failure() {
    let mut store = RequestStore::new();
    let prefix = "method=".to_string();
    assert!(matches!(
        extract_with_state(&store, 5, &prefix, |p: RequestParts, s: &String| Ok::<String, String>(
            format!("{}{}", s, p.method)
        )),
        Err(ExtractError::MissingParts(_))
    ));
    provide_request_parts(&mut store, 5, parts("PUT"));
    let got = extract_with_state(&store, 5, &prefix, |p: RequestParts, s: &String| {
        Ok::<String, String>(format!("{}{}", s, p.method))
    });
    assert_eq!(got, Ok("method=PUT".to_string()));
    let failed = extract_with_state(&store, 5, &prefix, |_p: RequestParts, _s: &String| {
        Err::<String, String>("no cookie".to_string())
    });
    assert_eq!(failed, Err(ExtractError::ExtractionFailed("no cookie".to_string())));
}

#[test]
fn extract_error_messages() {
    assert_eq!(
        ExtractError::MissingParts("x".to_string()).message(),
        "Missing request parts: x"
    );
    assert_eq!(
        ExtractError::ExtractionFailed("y".to_string()).message(),
        "Extraction failed: y"
    );
}

use isolate_host::frontend::{
    asset_result, dispatch, event_message, find_asset, not_found, route, stamp, Dispatch,
    ResponseEvent, Route,
    FAVICON_URL, LOCAL_REGION, X_FORWARDED_FOR, X_LAGON_REGION,
};
use isolate_host::http::{Body, Request, Response, RunResult};

#[test]
fn names_of_the_front_end() {
    assert_eq!(FAVICON_URL, "/favicon.ico");
    assert_eq!(X_FORWARDED_FOR, "x-forwarded-for");
    assert_eq!(X_LAGON_REGION, "x-lagon-region");
    assert_eq!(LOCAL_REGION, "local");
}

#[test]
fn a_matched_asset_is_served() {
    assert_eq!(
        route("/style.css", Some("style.css".to_string())),
        Route::Asset("style.css".to_string())
    );
}

#[test]
fn a_matched_favicon_is_served_as_an_asset() {
    assert_eq!(
        route("/favicon.ico", Some("favicon.ico".to_string())),
        Route::Asset("favicon.ico".to_string())
    );
}

#[test]
fn an_unmatched_favicon_is_not_found() {
    assert_eq!(route("/favicon.ico", None), Route::NotFound);
}

#[test]
fn everything_else_goes_to_the_isolate() {
    assert_eq!(route("/", None), Route::Isolate);
    assert_eq!(route("/api/users", None), Route::Isolate);
    assert_eq!(route("/favicon.ico/", None), Route::Isolate);
    assert_eq!(route("/FAVICON.ICO", None), Route::Isolate);
    assert_eq!(route("", None), Route::Isolate);
}

#[test]
fn an_asset_that_was_read_is_the_response() {
    let response = Response::text("body { }");
    assert_eq!(
        asset_result("style.css", Ok(Response::text("body { }"))),
        RunResult::Response(response)
    );
}

#[test]
fn an_asset_that_could_not_be_read_is_an_error() {
    assert_eq!(
        asset_result("style.css", Err("No such file or directory".to_string())),
        RunResult::Error(
            "Could not retrieve asset (style.css): No such file or directory".to_string()
        )
    );
}

#[test]
fn not_found_is_a_bare_404() {
    match not_found() {
        RunResult::Response(r) => {
            assert_eq!(r.status, 404);
            assert_eq!(r.headers.len(), 0);
            assert_eq!(r.body, Body::Bytes(Vec::new()));
        }
        other => panic!("unexpected {:?}", other),
    }
}

#[test]
fn stamp_adds_the_client_address_and_the_region() {
    let request = Request::new("GET".to_string(), "/".to_string(), 7);
    let stamped = stamp(request, "192.168.1.20".to_string());
    assert_eq!(
        stamped.headers.to_vec(),
        vec![
            ("x-forwarded-for".to_string(), "192.168.1.20".to_string()),
            ("x-lagon-region".to_string(), "local".to_string()),
        ]
    );
    assert_eq!(stamped.method, "GET");
    assert_eq!(stamped.url, "/");
    assert_eq!(stamped.arrival, 7);
}

#[test]
fn stamp_replaces_what_the_client_sent() {
    let mut request = Request::new("GET".to_string(), "/".to_string(), 0);
    request.headers.append("X-Forwarded-For", "1.1.1.1".to_string());
    request.headers.append("accept", "*/*".to_string());
    request.headers.append("X-Lagon-Region", "mars".to_string());
    request.headers.append("x-forwarded-for", "2.2.2.2".to_string());
    let stamped = stamp(request, "127.0.0.1".to_string());
    assert_eq!(
        stamped.headers.to_vec(),
        vec![
            ("accept".to_string(), "*/*".to_string()),
            ("x-forwarded-for".to_string(), "127.0.0.1".to_string()),
            ("x-lagon-region".to_string(), "local".to_string()),
        ]
    );
}

#[test]
fn a_request_that_was_read_is_submitted_stamped() {
    let request = Request::new("PUT".to_string(), "/a".to_string(), 3);
    match dispatch(Ok(request), "10.1.2.3".to_string()) {
        Dispatch::Submit(sent) => {
            assert_eq!(sent.method, "PUT");
            assert_eq!(sent.headers.get("x-forwarded-for"), Some("10.1.2.3".to_string()));
            assert_eq!(sent.headers.get("x-lagon-region"), Some("local".to_string()));
            assert_eq!(sent.headers.len(), 2);
        }
        other => panic!("unexpected {:?}", other),
    }
}

#[test]
fn a_request_that_was_not_read_is_rejected() {
    assert_eq!(
        dispatch(Err("invalid header value".to_string()), "10.1.2.3".to_string()),
        Dispatch::Reject {
            result: RunResult::Error("Error while parsing request".to_string()),
            notice: "Error while parsing request: invalid header value".to_string(),
        }
    );
}

#[test]
fn events_have_their_console_lines() {
    assert_eq!(event_message(&ResponseEvent::Bytes(12)), None);
    assert_eq!(
        event_message(&ResponseEvent::StreamDoneNoDataError),
        Some("The stream was done before sending a response/data".to_string())
    );
    assert_eq!(
        event_message(&ResponseEvent::StreamDoneDataError),
        Some("Got data after stream was done".to_string())
    );
    assert_eq!(
        event_message(&ResponseEvent::UnexpectedStreamResult(RunResult::Timeout)),
        Some("Unexpected stream result:".to_string())
    );
    assert_eq!(
        event_message(&ResponseEvent::LimitsReached(RunResult::Timeout)),
        Some("Function execution timed out".to_string())
    );
    assert_eq!(
        event_message(&ResponseEvent::LimitsReached(RunResult::MemoryLimit)),
        Some("Function execution reached memory limit".to_string())
    );
    assert_eq!(
        event_message(&ResponseEvent::Error("Uncaught Error: x".to_string())),
        Some("Uncaught Error: x".to_string())
    );
}

#[test]
fn a_limit_that_is_no_timeout_reads_as_the_memory_limit() {
    assert_eq!(
        event_message(&ResponseEvent::LimitsReached(RunResult::Error("x".to_string()))),
        Some("Function execution reached memory limit".to_string())
    );
}

#[test]
fn a_path_matches_the_asset_behind_its_slash() {
    let assets = vec!["style.css".to_string(), "img/logo.png".to_string()];
    assert_eq!(find_asset("/style.css", &assets), Some("style.css".to_string()));
    assert_eq!(find_asset("/img/logo.png", &assets), Some("img/logo.png".to_string()));
}

#[test]
fn a_path_that_matches_no_asset_finds_none() {
    let assets = vec!["style.css".to_string(), "img/logo.png".to_string()];
    assert_eq!(find_asset("/", &assets), None);
    assert_eq!(find_asset("style.css", &assets), None);
    assert_eq!(find_asset("/style.cs", &assets), None);
    assert_eq!(find_asset("/style.css/", &assets), None);
    assert_eq!(find_asset("//style.css", &assets), None);
    assert_eq!(find_asset("/STYLE.CSS", &assets), None);
    assert_eq!(find_asset("", &assets), None);
    assert_eq!(find_asset("/style.css", &Vec::new()), None);
}

#[test]
fn the_empty_asset_matches_the_root() {
    assert_eq!(find_asset("/", &vec![String::new()]), Some(String::new()));
}

#[test]
fn routing_by_the_manifest() {
    let assets = vec!["favicon.ico".to_string()];
    assert_eq!(
        route("/favicon.ico", find_asset("/favicon.ico", &assets)),
        Route::Asset("favicon.ico".to_string())
    );
    assert_eq!(route("/favicon.ico", find_asset("/favicon.ico", &Vec::new())), Route::NotFound);
    assert_eq!(route("/index", find_asset("/index", &assets)), Route::Isolate);
}

use isolate_host::http::{Body, Headers, Request, Response, RunResult, StreamMeta, DEFAULT_STATUS};

fn pairs(list: &[(&str, &str)]) -> Vec<(String, String)> {
    list.iter().map(|(k, v)| (k.to_string(), v.to_string())).collect()
}

#[test]
fn new_headers_are_empty() {
    let h = Headers::new();
    assert_eq!(h.len(), 0);
    assert_eq!(h.get("accept"), None);
    assert!(!h.has("accept"));
    assert_eq!(h.to_vec(), Vec::<(String, String)>::new());
}

#[test]
fn header_names_are_lower_cased_on_write() {
    let mut h = Headers::new();
    h.append("Content-Type", "text/html".to_string());
    h.set("X-Custom-HEADER", "1".to_string());
    assert_eq!(
        h.to_vec(),
        pairs(&[("content-type", "text/html"), ("x-custom-header", "1")])
    );
}

#[test]
fn header_lookup_ignores_case() {
    let mut h = Headers::new();
    h.append("Accept", "text/plain".to_string());
    assert_eq!(h.get("accept"), Some("text/plain".to_string()));
    assert_eq!(h.get("ACCEPT"), Some("text/plain".to_string()));
    assert!(h.has("aCCept"));
    assert!(!h.has("accept-language"));
}

#[test]
fn non_ascii_letters_keep_their_case() {
    let mut h = Headers::new();
    h.append("X-\u{c9}T\u{e9}", "v".to_string());
    assert_eq!(h.to_vec(), pairs(&[("x-\u{c9}t\u{e9}", "v")]));
    assert_eq!(h.get("x-\u{e9}t\u{e9}"), None);
}

#[test]
fn append_keeps_and_set_replaces() {
    let mut h = Headers::new();
    h.append("set-cookie", "a=1".to_string());
    h.append("Set-Cookie", "b=2".to_string());
    assert_eq!(h.len(), 2);
    assert_eq!(
        h.values("SET-COOKIE"),
        vec!["a=1".to_string(), "b=2".to_string()]
    );
    h.set("Set-Cookie", "c=3".to_string());
    assert_eq!(h.len(), 1);
    assert_eq!(h.values("set-cookie"), vec!["c=3".to_string()]);
}

#[test]
fn duplicate_headers_read_as_one_joined_value() {
    let mut h = Headers::new();
    h.append("accept", "text/html".to_string());
    h.append("host", "localhost".to_string());
    h.append("Accept", "application/json".to_string());
    h.append("ACCEPT", "*/*".to_string());
    assert_eq!(
        h.get("accept"),
        Some("text/html, application/json, */*".to_string())
    );
    assert_eq!(h.get("host"), Some("localhost".to_string()));
}

#[test]
fn set_moves_the_name_to_the_end() {
    let mut h = Headers::new();
    h.append("a", "1".to_string());
    h.append("b", "2".to_string());
    h.append("a", "3".to_string());
    h.set("A", "4".to_string());
    assert_eq!(h.to_vec(), pairs(&[("b", "2"), ("a", "4")]));
}

#[test]
fn remove_drops_every_value_of_the_name() {
    let mut h = Headers::new();
    h.append("a", "1".to_string());
    h.append("b", "2".to_string());
    h.append("A", "3".to_string());
    h.remove("a");
    assert_eq!(h.to_vec(), pairs(&[("b", "2")]));
    h.remove("missing");
    assert_eq!(h.to_vec(), pairs(&[("b", "2")]));
}

#[test]
fn an_empty_value_is_a_value() {
    let mut h = Headers::new();
    h.append("x-empty", String::new());
    assert_eq!(h.get("x-empty"), Some(String::new()));
    h.append("x-empty", "b".to_string());
    assert_eq!(h.get("x-empty"), Some(", b".to_string()));
}

#[test]
fn new_request_has_no_header_and_no_body() {
    let r = Request::new("GET".to_string(), "/path?q=1".to_string(), 42);
    assert_eq!(r.method, "GET");
    assert_eq!(r.url, "/path?q=1");
    assert_eq!(r.headers.len(), 0);
    assert_eq!(r.body, Body::Bytes(Vec::new()));
    assert_eq!(r.arrival, 42);
}

#[test]
fn set_header_on_a_request_replaces_the_value() {
    let mut r = Request::new("POST".to_string(), "/".to_string(), 0);
    r.headers.append("x-forwarded-for", "10.0.0.1".to_string());
    r.headers.append("x-forwarded-for", "10.0.0.2".to_string());
    r.set_header("X-Forwarded-For", "127.0.0.1".to_string());
    assert_eq!(r.headers.get("x-forwarded-for"), Some("127.0.0.1".to_string()));
    assert_eq!(r.headers.len(), 1);
    assert_eq!(r.method, "POST");
}

#[test]
fn response_status_defaults_to_200() {
    assert_eq!(DEFAULT_STATUS, 200);
    let r = Response::default();
    assert_eq!(r.status, 200);
    assert_eq!(r.headers.len(), 0);
    assert_eq!(r.body, Body::Bytes(Vec::new()));
    let r = Response::new(vec![1, 2, 3]);
    assert_eq!(r.status, 200);
    assert_eq!(r.body, Body::Bytes(vec![1, 2, 3]));
}

#[test]
fn response_text_holds_the_utf8_bytes() {
    let r = Response::text("ok");
    assert_eq!(r.status, 200);
    assert_eq!(r.body, Body::Bytes(vec![b'o', b'k']));
    let r = Response::text("\u{e9}");
    assert_eq!(r.body, Body::Bytes(vec![0xc3, 0xa9]));
    assert_eq!(Response::text(""), Response::default());
}

#[test]
fn response_with_status_is_bare() {
    let r = Response::with_status(404);
    assert_eq!(r.status, 404);
    assert_eq!(r.headers.len(), 0);
    assert_eq!(r.body, Body::Bytes(Vec::new()));
}

#[test]
fn run_results_compare_by_value() {
    assert_eq!(RunResult::Timeout, RunResult::Timeout);
    assert_ne!(RunResult::Timeout, RunResult::MemoryLimit);
    assert_eq!(
        RunResult::Response(Response::text("a")),
        RunResult::Response(Response::text("a"))
    );
    assert_ne!(
        RunResult::Error("a".to_string()),
        RunResult::Error("b".to_string())
    );
    let meta = StreamMeta { status: 200, headers: Headers::new() };
    assert_ne!(RunResult::Stream(meta), RunResult::Response(Response::default()));
}

use isolate_host::errors::{check_callback, fetch_outcome, uncaught_message, Fetched, ScriptError};
use isolate_host::http::Response;

#[test]
fn a_function_passes() {
    assert_eq!(check_callback(true), Ok(()));
}

#[test]
fn anything_else_is_a_type_error() {
    assert_eq!(
        check_callback(false),
        Err(ScriptError {
            name: "TypeError".to_string(),
            text: "Parameter 1 is not of type 'Function'".to_string(),
        })
    );
}

#[test]
fn queue_microtask_with_a_non_function_is_described_with_its_place() {
    let error = check_callback(false).unwrap_err();
    assert_eq!(
        uncaught_message(&error, "handler", 2, 5),
        "Uncaught TypeError: Parameter 1 is not of type 'Function'\n  at handler (2:5)"
    );
}

#[test]
fn an_uncaught_exception_is_described_on_two_lines() {
    let error = ScriptError { name: "Error".to_string(), text: "Expected first".to_string() };
    assert_eq!(
        uncaught_message(&error, "ctx.run", 12, 15),
        "Uncaught Error: Expected first\n  at ctx.run (12:15)"
    );
    let error = ScriptError { name: String::new(), text: String::new() };
    assert_eq!(uncaught_message(&error, "", 0, 4294967295), "Uncaught : \n  at  (0:4294967295)");
}

#[test]
fn a_fetch_resolves_with_any_status() {
    for status in [200u16, 204, 301, 404, 500, 503] {
        let mut response = Response::text("Hello, World");
        response.status = status;
        let mut same = Response::text("Hello, World");
        same.status = status;
        assert_eq!(fetch_outcome(Ok(response)), Fetched::Resolve(same));
    }
}

#[test]
fn a_network_error_rejects_with_a_type_error() {
    assert_eq!(
        fetch_outcome(Err("error trying to connect: connection refused".to_string())),
        Fetched::Reject(ScriptError {
            name: "TypeError".to_string(),
            text: "error trying to connect: connection refused".to_string(),
        })
    );
}

use isolate_host::frontend::ResponseEvent;
use isolate_host::http::{Body, Headers, Response, RunResult, StreamMeta};
use isolate_host::receiver::{Output, Receiving, FAILURE_STATUS};
use isolate_host::reply::Reply;

fn failure() -> Output {
    Output::Whole { status: 500, headers: Headers::new(), body: Vec::new() }
}

fn head() -> Reply {
    let mut headers = Headers::new();
    headers.append("content-type", "text/plain".to_string());
    Reply::Result(RunResult::Stream(StreamMeta { status: 201, headers }))
}

#[test]
fn a_response_is_written_as_it_is() {
    let mut state = Receiving::Start;
    let mut response = Response::text("Hello");
    response.status = 202;
    response.headers.append("x-a", "b".to_string());
    let (output, event) = state.receive(Reply::Result(RunResult::Response(response)));
    let mut headers = Headers::new();
    headers.append("x-a", "b".to_string());
    assert_eq!(output, Output::Whole { status: 202, headers, body: b"Hello".to_vec() });
    assert_eq!(event, Some(ResponseEvent::Bytes(5)));
    assert_eq!(state, Receiving::Ended);
}

#[test]
fn a_run_without_a_response_is_answered_with_500() {
    assert_eq!(FAILURE_STATUS, 500);
    let mut state = Receiving::Start;
    assert_eq!(
        state.receive(Reply::Result(RunResult::Timeout)),
        (failure(), Some(ResponseEvent::LimitsReached(RunResult::Timeout)))
    );
    assert_eq!(state, Receiving::Ended);
    let mut state = Receiving::Start;
    assert_eq!(
        state.receive(Reply::Result(RunResult::MemoryLimit)),
        (failure(), Some(ResponseEvent::LimitsReached(RunResult::MemoryLimit)))
    );
    let mut state = Receiving::Start;
    assert_eq!(
        state.receive(Reply::Result(RunResult::Error("Uncaught Error: x".to_string()))),
        (failure(), Some(ResponseEvent::Error("Uncaught Error: x".to_string())))
    );
    assert_eq!(state, Receiving::Ended);
}

#[test]
fn a_stream_is_written_part_by_part() {
    let mut state = Receiving::Start;
    let mut headers = Headers::new();
    headers.append("content-type", "text/plain".to_string());
    assert_eq!(state.receive(head()), (Output::Head { status: 201, headers }, None));
    assert_eq!(state, Receiving::Body);
    assert_eq!(state.receive(Reply::Chunk(vec![1, 2])), (Output::Data(vec![1, 2]), None));
    assert_eq!(state.receive(Reply::Chunk(vec![])), (Output::Data(vec![]), None));
    assert_eq!(state, Receiving::Body);
    assert_eq!(state.receive(Reply::Done), (Output::End, None));
    assert_eq!(state, Receiving::Ended);
}

#[test]
fn a_stream_that_breaks_off_cuts_the_connection() {
    let mut state = Receiving::Start;
    state.receive(head());
    assert_eq!(
        state.receive(Reply::Failed("source failed".to_string())),
        (Output::Abort, Some(ResponseEvent::Error("source failed".to_string())))
    );
    assert_eq!(state, Receiving::Ended);
}

#[test]
fn a_stream_that_ends_before_it_began_is_a_500() {
    let mut state = Receiving::Start;
    assert_eq!(
        state.receive(Reply::Done),
        (failure(), Some(ResponseEvent::StreamDoneNoDataError))
    );
    assert_eq!(state, Receiving::Ended);
}

#[test]
fn a_chunk_after_the_end_is_reported() {
    let mut state = Receiving::Start;
    state.receive(head());
    state.receive(Reply::Done);
    assert_eq!(
        state.receive(Reply::Chunk(vec![9])),
        (Output::Nothing, Some(ResponseEvent::StreamDoneDataError))
    );
    assert_eq!(state, Receiving::Ended);
}

#[test]
fn a_result_inside_a_stream_is_reported() {
    let mut state = Receiving::Start;
    state.receive(head());
    assert_eq!(
        state.receive(Reply::Result(RunResult::Timeout)),
        (Output::Nothing, Some(ResponseEvent::UnexpectedStreamResult(RunResult::Timeout)))
    );
    assert_eq!(state, Receiving::Body);
    assert_eq!(state.receive(Reply::Done), (Output::End, None));
}

#[test]
fn what_may_not_come_is_dropped() {
    let mut state = Receiving::Start;
    assert_eq!(state.receive(Reply::Chunk(vec![1])), (Output::Nothing, None));
    assert_eq!(state.receive(Reply::Failed("x".to_string())), (Output::Nothing, None));
    assert_eq!(state, Receiving::Start);
    let mut state = Receiving::Ended;
    assert_eq!(state.receive(Reply::Done), (Output::Nothing, None));
    assert_eq!(state.receive(Reply::Result(RunResult::Timeout)), (Output::Nothing, None));
    assert_eq!(state.receive(Reply::Failed("x".to_string())), (Output::Nothing, None));
    assert_eq!(state, Receiving::Ended);
}

#[test]
fn a_response_whose_body_is_a_handle_has_no_bytes_here() {
    let mut state = Receiving::Start;
    let response = Response { status: 200, headers: Headers::new(), body: Body::Stream(4) };
    assert_eq!(
        state.receive(Reply::Result(RunResult::Response(response))),
        (
            Output::Whole { status: 200, headers: Headers::new(), body: Vec::new() },
            Some(ResponseEvent::Bytes(0))
        )
    );
}

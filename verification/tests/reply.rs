use isolate_host::http::{Headers, Response, RunResult, StreamMeta};
use isolate_host::reply::{Reply, ReplyState};

fn head() -> Reply {
    Reply::Result(RunResult::Stream(StreamMeta { status: 200, headers: Headers::new() }))
}

fn feed(items: Vec<Reply>) -> (ReplyState, Vec<bool>) {
    let mut state = ReplyState::Pending;
    let mut taken = Vec::new();
    for item in items.iter() {
        taken.push(state.accept(item));
    }
    (state, taken)
}

#[test]
fn a_single_result_is_a_whole_reply() {
    for result in [
        RunResult::Response(Response::text("ok")),
        RunResult::Error("boom".to_string()),
        RunResult::Timeout,
        RunResult::MemoryLimit,
    ] {
        assert_eq!(feed(vec![Reply::Result(result)]), (ReplyState::Closed, vec![true]));
    }
}

#[test]
fn a_second_result_is_not_taken() {
    assert_eq!(
        feed(vec![Reply::Result(RunResult::Timeout), Reply::Result(RunResult::Timeout)]),
        (ReplyState::Closed, vec![true, false])
    );
}

#[test]
fn a_stream_is_a_head_chunks_and_one_terminator() {
    assert_eq!(
        feed(vec![head(), Reply::Chunk(vec![1]), Reply::Chunk(vec![]), Reply::Done]),
        (ReplyState::Closed, vec![true, true, true, true])
    );
    assert_eq!(feed(vec![head(), Reply::Done]), (ReplyState::Closed, vec![true, true]));
    assert_eq!(
        feed(vec![head(), Reply::Chunk(vec![1]), Reply::Failed("cut".to_string())]),
        (ReplyState::Closed, vec![true, true, true])
    );
}

#[test]
fn an_open_stream_is_not_closed() {
    assert_eq!(feed(vec![head()]), (ReplyState::Streaming, vec![true]));
    assert_eq!(
        feed(vec![head(), Reply::Chunk(vec![1, 2])]),
        (ReplyState::Streaming, vec![true, true])
    );
}

#[test]
fn stream_parts_need_a_head() {
    assert_eq!(feed(vec![Reply::Chunk(vec![1])]), (ReplyState::Pending, vec![false]));
    assert_eq!(feed(vec![Reply::Done]), (ReplyState::Pending, vec![false]));
    assert_eq!(
        feed(vec![Reply::Failed("x".to_string())]),
        (ReplyState::Pending, vec![false])
    );
}

#[test]
fn a_result_does_not_come_into_a_stream() {
    assert_eq!(
        feed(vec![head(), Reply::Result(RunResult::Timeout), head()]),
        (ReplyState::Streaming, vec![true, false, false])
    );
}

#[test]
fn a_closed_channel_takes_nothing() {
    assert_eq!(
        feed(vec![
            head(),
            Reply::Done,
            Reply::Chunk(vec![1]),
            Reply::Done,
            Reply::Failed("x".to_string()),
            Reply::Result(RunResult::Timeout),
        ]),
        (ReplyState::Closed, vec![true, true, false, false, false, false])
    );
}

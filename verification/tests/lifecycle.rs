use isolate_host::http::{Headers, Response, RunResult, StreamMeta};
use isolate_host::lifecycle::{Active, Lifecycle, Outgoing, Phase};
use isolate_host::reply::{Reply, ReplyState};

fn ready() -> Lifecycle {
    let mut life = Lifecycle::new(1000);
    life.evaluated(Ok(()));
    life
}

fn head() -> RunResult {
    RunResult::Stream(StreamMeta { status: 200, headers: Headers::new() })
}

#[test]
fn a_new_isolate_is_not_ready() {
    let mut life = Lifecycle::new(1000);
    assert_eq!(life.phase(), Phase::New);
    assert_eq!(life.timeout(), 1000);
    assert!(!life.takes_requests());
    assert!(!life.fails_requests());
    assert_eq!(life.accept(0), None);
    assert_eq!(life.current(), None);
    assert_eq!(life.phase(), Phase::New);
}

#[test]
fn evaluation_makes_it_ready() {
    let life = ready();
    assert_eq!(life.phase(), Phase::Ready);
    assert!(life.takes_requests());
}

#[test]
fn a_script_that_does_not_evaluate_poisons_the_isolate() {
    let mut life = Lifecycle::new(1000);
    life.evaluated(Err("Uncaught SyntaxError: Unexpected token (3:7)".to_string()));
    assert_eq!(life.phase(), Phase::Poisoned);
    assert!(!life.takes_requests());
    assert!(life.fails_requests());
    for id in 1..4 {
        assert_eq!(
            life.accept(10),
            Some(Outgoing {
                request: id,
                item: Reply::Result(RunResult::Error(
                    "Uncaught SyntaxError: Unexpected token (3:7)".to_string()
                )),
            })
        );
        assert_eq!(life.current(), None);
    }
}

#[test]
fn evaluation_counts_once() {
    let mut life = ready();
    life.evaluated(Err("late".to_string()));
    assert_eq!(life.phase(), Phase::Ready);
}

#[test]
fn a_request_is_taken_with_its_deadline() {
    let mut life = ready();
    assert_eq!(life.accept(250), None);
    assert_eq!(life.phase(), Phase::Serving);
    assert_eq!(
        life.current(),
        Some(Active { id: 1, deadline: 1250, reply: ReplyState::Pending })
    );
    assert!(!life.takes_requests());
}

#[test]
fn one_request_runs_at_a_time() {
    let mut life = ready();
    life.accept(0);
    assert_eq!(life.accept(5), None);
    assert_eq!(life.current().map(|a| a.id), Some(1));
}

#[test]
fn the_handlers_response_ends_the_request() {
    let mut life = ready();
    life.accept(0);
    assert_eq!(
        life.settle(RunResult::Response(Response::text("ok"))),
        Some(Outgoing {
            request: 1,
            item: Reply::Result(RunResult::Response(Response::text("ok"))),
        })
    );
    assert_eq!(life.current(), None);
    assert_eq!(life.phase(), Phase::Serving);
    assert!(life.takes_requests());
}

#[test]
fn a_result_is_sent_once() {
    let mut life = ready();
    life.accept(0);
    assert!(life.settle(RunResult::Error("Uncaught Error: x".to_string())).is_some());
    assert_eq!(life.settle(RunResult::Response(Response::text("late"))), None);
    assert_eq!(life.check_quota(5000), None);
    assert_eq!(life.end_stream(Ok(())), None);
    assert_eq!(life.chunk(vec![1]), None);
}

#[test]
fn requests_are_numbered_in_order() {
    let mut life = ready();
    for id in 1..5 {
        life.accept(0);
        assert_eq!(life.current().map(|a| a.id), Some(id));
        assert_eq!(life.settle(RunResult::Timeout).map(|o| o.request), Some(id));
    }
}

#[test]
fn the_budget_is_spent_after_the_deadline() {
    let mut life = ready();
    life.accept(100);
    assert_eq!(life.check_quota(100), None);
    assert_eq!(life.check_quota(1100), None);
    assert_eq!(
        life.check_quota(1101),
        Some(Outgoing { request: 1, item: Reply::Result(RunResult::Timeout) })
    );
    assert_eq!(life.current(), None);
    assert_eq!(life.check_quota(1200), None);
}

#[test]
fn a_timeout_does_not_poison() {
    let mut life = ready();
    life.accept(0);
    life.check_quota(5000);
    assert_eq!(life.phase(), Phase::Serving);
    assert_eq!(life.accept(6000), None);
    assert_eq!(
        life.current(),
        Some(Active { id: 2, deadline: 7000, reply: ReplyState::Pending })
    );
    assert!(life.settle(RunResult::Response(Response::text("ok"))).is_some());
}

#[test]
fn the_heap_limit_ends_the_request_at_the_next_check() {
    let mut life = ready();
    life.accept(0);
    life.heap_limit_reached();
    assert_eq!(life.current().map(|a| a.id), Some(1));
    assert_eq!(
        life.check_quota(1),
        Some(Outgoing { request: 1, item: Reply::Result(RunResult::MemoryLimit) })
    );
    assert_eq!(life.phase(), Phase::Serving);
    life.accept(10);
    assert_eq!(life.check_quota(11), None);
}

#[test]
fn the_heap_limit_comes_before_the_timeout() {
    let mut life = ready();
    life.accept(0);
    life.heap_limit_reached();
    assert_eq!(
        life.check_quota(9999).map(|o| o.item),
        Some(Reply::Result(RunResult::MemoryLimit))
    );
}

#[test]
fn a_heap_report_without_a_request_is_dropped() {
    let mut life = ready();
    life.heap_limit_reached();
    life.accept(0);
    assert_eq!(life.check_quota(1), None);
}

#[test]
fn a_stream_is_opened_fed_and_ended() {
    let mut life = ready();
    life.accept(0);
    assert_eq!(life.chunk(vec![1]), None);
    assert_eq!(
        life.settle(head()),
        Some(Outgoing { request: 1, item: Reply::Result(head()) })
    );
    assert_eq!(
        life.current(),
        Some(Active { id: 1, deadline: 1000, reply: ReplyState::Streaming })
    );
    assert_eq!(
        life.chunk(vec![104, 105]),
        Some(Outgoing { request: 1, item: Reply::Chunk(vec![104, 105]) })
    );
    assert_eq!(life.chunk(vec![]), Some(Outgoing { request: 1, item: Reply::Chunk(vec![]) }));
    assert_eq!(life.end_stream(Ok(())), Some(Outgoing { request: 1, item: Reply::Done }));
    assert_eq!(life.current(), None);
    assert_eq!(life.chunk(vec![1]), None);
    assert_eq!(life.end_stream(Ok(())), None);
}

#[test]
fn a_stream_that_breaks_off_ends_with_its_failure() {
    let mut life = ready();
    life.accept(0);
    life.settle(head());
    assert_eq!(
        life.end_stream(Err("Uncaught Error: source failed".to_string())),
        Some(Outgoing {
            request: 1,
            item: Reply::Failed("Uncaught Error: source failed".to_string()),
        })
    );
    assert_eq!(life.current(), None);
}

#[test]
fn a_stream_that_outlives_its_budget_is_cut() {
    let mut life = ready();
    life.accept(0);
    life.settle(head());
    assert_eq!(life.check_quota(1000), None);
    assert_eq!(
        life.check_quota(1001),
        Some(Outgoing {
            request: 1,
            item: Reply::Failed("Function execution timed out".to_string()),
        })
    );
    assert_eq!(life.current(), None);
    let mut life = ready();
    life.accept(0);
    life.settle(head());
    life.heap_limit_reached();
    assert_eq!(
        life.check_quota(1).map(|o| o.item),
        Some(Reply::Failed("Function execution reached memory limit".to_string()))
    );
}

#[test]
fn a_broken_engine_fails_this_request_and_the_next() {
    let mut life = ready();
    life.accept(0);
    assert_eq!(
        life.poison("heap out of memory".to_string()),
        Some(Outgoing {
            request: 1,
            item: Reply::Result(RunResult::Error("heap out of memory".to_string())),
        })
    );
    assert_eq!(life.phase(), Phase::Poisoned);
    assert_eq!(
        life.accept(5),
        Some(Outgoing {
            request: 2,
            item: Reply::Result(RunResult::Error("heap out of memory".to_string())),
        })
    );
}

#[test]
fn a_broken_engine_without_a_request_sends_nothing() {
    let mut life = ready();
    assert_eq!(life.poison("snapshot mismatch".to_string()), None);
    assert_eq!(life.phase(), Phase::Poisoned);
}

#[test]
fn disposal_tells_the_running_request() {
    let mut life = ready();
    life.accept(0);
    assert_eq!(
        life.dispose(),
        Some(Outgoing {
            request: 1,
            item: Reply::Result(RunResult::Error("isolate replaced".to_string())),
        })
    );
    assert_eq!(life.phase(), Phase::Disposed);
    assert_eq!(life.current(), None);
    assert_eq!(life.accept(1), None);
    assert_eq!(life.dispose(), None);
    assert_eq!(life.poison("x".to_string()), None);
    assert_eq!(life.phase(), Phase::Disposed);
}

#[test]
fn disposal_cuts_an_open_stream() {
    let mut life = ready();
    life.accept(0);
    life.settle(head());
    assert_eq!(
        life.dispose(),
        Some(Outgoing { request: 1, item: Reply::Failed("isolate replaced".to_string()) })
    );
}

#[test]
fn disposal_of_an_idle_isolate_sends_nothing() {
    let mut life = ready();
    assert_eq!(life.dispose(), None);
    let mut life = ready();
    life.accept(0);
    life.settle(RunResult::Timeout);
    assert_eq!(life.dispose(), None);
}

#[test]
fn every_reply_follows_the_order_of_the_channel() {
    let mut life = ready();
    let mut state = ReplyState::Pending;
    life.accept(0);
    let mut sent = Vec::new();
    sent.extend(life.settle(head()));
    sent.extend(life.chunk(vec![1]));
    sent.extend(life.settle(RunResult::Timeout));
    sent.extend(life.chunk(vec![2]));
    sent.extend(life.check_quota(2000));
    sent.extend(life.chunk(vec![3]));
    sent.extend(life.end_stream(Ok(())));
    sent.extend(life.dispose());
    assert_eq!(sent.len(), 4);
    for out in sent.iter() {
        assert_eq!(out.request, 1);
        assert!(state.accept(&out.item));
    }
    assert_eq!(state, ReplyState::Closed);
}

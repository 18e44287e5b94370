use isolate_host::isolate::Isolate;
use isolate_host::http::{Response, RunResult};
use isolate_host::lifecycle::{Outgoing, Phase};
use isolate_host::options::IsolateOptions;
use isolate_host::reply::Reply;
use isolate_host::supervisor::{Delivery, Supervisor, Ticket};

fn ready(script: &str) -> Isolate {
    let mut isolate = Isolate::new(IsolateOptions::new(script.to_string()));
    isolate.evaluated(Ok(()));
    isolate
}

#[test]
fn a_new_supervisor_is_at_the_first_generation() {
    let s = Supervisor::new();
    assert_eq!(s.generation(), 1);
    assert_eq!(s.waiting(), 0);
}

#[test]
fn requests_are_delivered_in_the_order_they_came() {
    let mut s = Supervisor::new();
    let mut isolate = ready("");
    for token in [30, 10, 20] {
        s.submit(Ticket { token, arrival: token });
    }
    assert_eq!(s.waiting(), 3);
    let mut order = Vec::new();
    while let Some(delivery) = s.deliver(&mut isolate) {
        assert_eq!(delivery.refused, None);
        assert_eq!(delivery.generation, 1);
        order.push(delivery.ticket.token);
        assert_eq!(
            isolate.current().map(|a| a.deadline),
            Some(delivery.ticket.arrival + 1000)
        );
        isolate.settle(RunResult::Response(Response::text("ok")));
    }
    assert_eq!(order, vec![30, 10, 20]);
    assert_eq!(s.waiting(), 0);
}

#[test]
fn a_busy_isolate_is_handed_nothing() {
    let mut s = Supervisor::new();
    let mut isolate = ready("");
    s.submit(Ticket { token: 1, arrival: 0 });
    s.submit(Ticket { token: 2, arrival: 0 });
    assert!(s.deliver(&mut isolate).is_some());
    assert_eq!(s.deliver(&mut isolate), None);
    assert_eq!(s.waiting(), 1);
    assert_eq!(isolate.current().map(|a| a.id), Some(1));
}

#[test]
fn an_isolate_that_is_not_evaluated_is_handed_nothing() {
    let mut s = Supervisor::new();
    let mut isolate = Isolate::new(IsolateOptions::new(String::new()));
    s.submit(Ticket { token: 1, arrival: 0 });
    assert_eq!(s.deliver(&mut isolate), None);
    assert_eq!(s.waiting(), 1);
}

#[test]
fn a_poisoned_isolate_fails_what_it_is_handed() {
    let mut s = Supervisor::new();
    let mut isolate = Isolate::new(IsolateOptions::new(String::new()));
    isolate.evaluated(Err("bad script".to_string()));
    s.submit(Ticket { token: 8, arrival: 3 });
    assert_eq!(
        s.deliver(&mut isolate),
        Some(Delivery {
            ticket: Ticket { token: 8, arrival: 3 },
            generation: 1,
            refused: Some(Outgoing {
                request: 1,
                item: Reply::Result(RunResult::Error("bad script".to_string())),
            }),
        })
    );
    assert_eq!(s.waiting(), 0);
}

#[test]
fn a_new_script_replaces_the_isolate_and_keeps_the_queue() {
    let mut s = Supervisor::new();
    let mut isolate = ready("old");
    s.submit(Ticket { token: 1, arrival: 0 });
    s.submit(Ticket { token: 2, arrival: 5 });
    s.submit(Ticket { token: 3, arrival: 6 });
    s.deliver(&mut isolate);
    let swap = s.swap(isolate, Some(b"new".to_vec()));
    assert!(swap.replaced);
    assert_eq!(
        swap.cancelled,
        Some(Outgoing {
            request: 1,
            item: Reply::Result(RunResult::Error("isolate replaced".to_string())),
        })
    );
    assert_eq!(s.generation(), 2);
    assert_eq!(s.waiting(), 2);
    let mut isolate = swap.isolate;
    assert_eq!(isolate.options().source, "new");
    assert_eq!(isolate.phase(), Phase::New);
    assert_eq!(s.deliver(&mut isolate), None);
    isolate.evaluated(Ok(()));
    let delivery = s.deliver(&mut isolate).unwrap();
    assert_eq!(delivery.ticket, Ticket { token: 2, arrival: 5 });
    assert_eq!(delivery.generation, 2);
}

#[test]
fn a_script_that_is_not_utf8_replaces_nothing() {
    let mut s = Supervisor::new();
    let mut isolate = ready("old");
    s.submit(Ticket { token: 1, arrival: 0 });
    s.deliver(&mut isolate);
    let swap = s.swap(isolate, Some(vec![0x80]));
    assert!(!swap.replaced);
    assert_eq!(swap.cancelled, None);
    assert_eq!(s.generation(), 1);
    assert_eq!(swap.isolate.options().source, "old");
    assert_eq!(swap.isolate.current().map(|a| a.id), Some(1));
}

#[test]
fn a_restart_keeps_the_script() {
    let mut s = Supervisor::new();
    let swap = s.swap(ready("same"), None);
    assert!(swap.replaced);
    assert_eq!(swap.cancelled, None);
    assert_eq!(swap.isolate.options().source, "same");
    assert_eq!(swap.isolate.phase(), Phase::New);
    assert_eq!(s.generation(), 2);
}

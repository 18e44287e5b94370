use isolate_host::timers::{Timer, TimerQueue, MAX_CLOCK, MAX_PERIOD};

fn fire_all(q: &mut TimerQueue, now: u64) -> Vec<u64> {
    q.begin_tick();
    let mut fired = Vec::new();
    loop {
        match q.pop_due(now) {
            Some(t) => fired.push(t.id),
            None => break,
        }
    }
    fired
}

#[test]
fn limits_of_the_clock() {
    assert_eq!(MAX_CLOCK, i64::MAX as u64);
    assert_eq!(MAX_PERIOD, i64::MAX as u64);
}

#[test]
fn ids_are_positive_and_grow() {
    let mut q = TimerQueue::new();
    assert_eq!(q.set_timeout(0, 10, 1, 0, 0), 1);
    assert_eq!(q.set_interval(0, 10, 1, 0, 0), 2);
    assert_eq!(q.set_timeout(0, 10, 1, 0, 0), 3);
    q.clear(2);
    assert_eq!(q.set_timeout(0, 10, 1, 0, 0), 4);
    assert_eq!(q.len(), 3);
    assert!(q.has_room());
}

#[test]
fn a_timeout_is_armed_as_registered() {
    let mut q = TimerQueue::new();
    let id = q.set_timeout(1000, 250, 77, 3, 9);
    q.begin_tick();
    assert_eq!(q.pop_due(1249), None);
    assert_eq!(
        q.pop_due(1250),
        Some(Timer { id, due: 1250, period: 0, callback: 77, frame: 3, owner: 9, fresh: false })
    );
    assert_eq!(q.len(), 0);
    assert!(!q.is_armed(id));
}

#[test]
fn a_negative_delay_counts_as_none() {
    let mut q = TimerQueue::new();
    let id = q.set_timeout(500, -20, 1, 0, 0);
    assert_eq!(q.next_due(), Some(500));
    assert_eq!(fire_all(&mut q, 500), vec![id]);
    let mut q = TimerQueue::new();
    q.set_timeout(500, i64::MIN, 1, 0, 0);
    assert_eq!(q.next_due(), Some(500));
    q.set_timeout(MAX_CLOCK, i64::MAX, 1, 0, 0);
    assert_eq!(q.next_due(), Some(500));
}

#[test]
fn clearing_before_the_due_time_stops_the_timer() {
    let mut q = TimerQueue::new();
    let first = q.set_timeout(0, 100, 1, 0, 1);
    let second = q.set_timeout(0, 200, 2, 0, 1);
    q.clear(first);
    assert!(!q.is_armed(first));
    assert!(q.is_armed(second));
    assert_eq!(fire_all(&mut q, 100), Vec::<u64>::new());
    assert_eq!(fire_all(&mut q, 200), vec![second]);
    assert_eq!(fire_all(&mut q, 10_000), Vec::<u64>::new());
}

#[test]
fn clearing_the_later_timer_leaves_the_earlier() {
    let mut q = TimerQueue::new();
    let first = q.set_timeout(0, 100, 1, 0, 1);
    let second = q.set_timeout(0, 200, 2, 0, 1);
    q.clear(second);
    assert_eq!(fire_all(&mut q, 100), vec![first]);
    assert_eq!(fire_all(&mut q, 200), Vec::<u64>::new());
}

#[test]
fn clearing_an_unknown_id_changes_nothing() {
    let mut q = TimerQueue::new();
    let id = q.set_timeout(0, 100, 1, 0, 1);
    q.clear(0);
    q.clear(99);
    assert_eq!(q.len(), 1);
    assert_eq!(fire_all(&mut q, 100), vec![id]);
    q.clear(id);
    assert_eq!(q.len(), 0);
}

#[test]
fn due_timers_fire_earliest_first() {
    let mut q = TimerQueue::new();
    let late = q.set_timeout(0, 300, 1, 0, 1);
    let early = q.set_timeout(0, 100, 2, 0, 1);
    let middle = q.set_timeout(0, 200, 3, 0, 1);
    assert_eq!(fire_all(&mut q, 1000), vec![early, middle, late]);
}

#[test]
fn ties_fire_in_the_order_of_arming() {
    let mut q = TimerQueue::new();
    let a = q.set_timeout(0, 50, 1, 0, 1);
    let b = q.set_timeout(10, 40, 2, 0, 1);
    let c = q.set_timeout(50, 0, 3, 0, 1);
    assert_eq!(fire_all(&mut q, 50), vec![a, b, c]);
}

#[test]
fn a_timer_armed_during_a_tick_waits_for_the_next() {
    let mut q = TimerQueue::new();
    let a = q.set_timeout(0, 0, 1, 0, 1);
    q.begin_tick();
    assert_eq!(q.pop_due(0).map(|t| t.id), Some(a));
    let b = q.set_timeout(0, 0, 2, 0, 1);
    assert_eq!(q.pop_due(0), None);
    assert_eq!(fire_all(&mut q, 0), vec![b]);
}

#[test]
fn an_interval_is_armed_again_for_now_plus_its_period() {
    let mut q = TimerQueue::new();
    let id = q.set_interval(0, 100, 5, 2, 1);
    q.begin_tick();
    assert_eq!(
        q.pop_due(130),
        Some(Timer { id, due: 100, period: 100, callback: 5, frame: 2, owner: 1, fresh: false })
    );
    assert!(q.is_armed(id));
    assert_eq!(q.next_due(), Some(230));
    assert_eq!(q.pop_due(130), None);
    assert_eq!(fire_all(&mut q, 229), Vec::<u64>::new());
    assert_eq!(fire_all(&mut q, 230), vec![id]);
    assert_eq!(q.next_due(), Some(330));
}

#[test]
fn an_interval_fires_once_per_tick_however_late_the_tick() {
    let mut q = TimerQueue::new();
    let id = q.set_interval(0, 10, 1, 0, 1);
    assert_eq!(fire_all(&mut q, 1000), vec![id]);
    assert_eq!(fire_all(&mut q, 1000), Vec::<u64>::new());
    assert_eq!(fire_all(&mut q, 1010), vec![id]);
}

#[test]
fn the_period_of_an_interval_is_at_least_one() {
    let mut q = TimerQueue::new();
    let id = q.set_interval(7, 0, 1, 0, 1);
    q.begin_tick();
    assert_eq!(q.pop_due(7).map(|t| (t.due, t.period)), Some((7, 1)));
    assert_eq!(q.next_due(), Some(8));
    let mut q = TimerQueue::new();
    q.set_interval(7, -5, 1, 0, 1);
    q.begin_tick();
    assert_eq!(q.pop_due(7).map(|t| (t.due, t.period)), Some((7, 1)));
    assert!(q.is_armed(1));
    assert_eq!(id, 1);
}

#[test]
fn clearing_an_interval_from_its_own_callback_stops_it() {
    let mut q = TimerQueue::new();
    let id = q.set_interval(0, 100, 1, 0, 1);
    let mut count = 0;
    let mut now = 0;
    while now <= 1000 {
        q.begin_tick();
        while let Some(t) = q.pop_due(now) {
            assert_eq!(t.id, id);
            count += 1;
            if count >= 3 {
                q.clear(id);
            }
        }
        now += 50;
    }
    assert_eq!(count, 3);
    assert_eq!(q.len(), 0);
}

#[test]
fn next_due_is_the_earliest_due_time() {
    let mut q = TimerQueue::new();
    assert_eq!(q.next_due(), None);
    q.set_timeout(0, 300, 1, 0, 1);
    assert_eq!(q.next_due(), Some(300));
    q.set_timeout(0, 100, 1, 0, 1);
    q.set_timeout(0, 200, 1, 0, 1);
    assert_eq!(q.next_due(), Some(100));
    q.clear(2);
    assert_eq!(q.next_due(), Some(200));
}

#[test]
fn discard_drops_the_timers_of_one_request() {
    let mut q = TimerQueue::new();
    let a = q.set_timeout(0, 10, 1, 0, 1);
    let b = q.set_timeout(0, 10, 1, 0, 2);
    let c = q.set_interval(0, 10, 1, 0, 1);
    q.discard(1);
    assert!(!q.is_armed(a));
    assert!(q.is_armed(b));
    assert!(!q.is_armed(c));
    assert_eq!(fire_all(&mut q, 100), vec![b]);
    q.discard(7);
    assert_eq!(q.len(), 0);
}

#[test]
fn a_cleared_id_is_not_handed_out_again() {
    let mut q = TimerQueue::new();
    let a = q.set_timeout(0, 10, 1, 0, 1);
    q.clear(a);
    let b = q.set_timeout(0, 10, 2, 0, 1);
    assert_ne!(a, b);
    assert_eq!(fire_all(&mut q, 10), vec![b]);
}

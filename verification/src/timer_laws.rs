//! What holds of a timer queue over any sequence of operations.

use vstd::prelude::*;
use crate::timers::{
    lemma_filter_keeps_wf, lemma_pop_keeps_wf, lemma_push_keeps_wf, wait_of, QueueModel, Timer,
    TimerOp, MAX_PERIOD,
};
use crate::context::FrameId;

verus! {

/// Running one operation more is running the sequence and then the operation.
pub proof fn lemma_run_take(q: QueueModel, ops: Seq<TimerOp>, k: int)
    requires
        0 <= k < ops.len(),
    ensures
        q.run(ops.take(k + 1)) == q.run(ops.take(k)).step(ops[k]),
{
    assert(ops.take(k + 1).drop_last() =~= ops.take(k));
}

/// Every operation that a well-formed queue takes leaves it well formed: at
/// any time one timer at most has a given id.
pub proof fn law_ids_stay_unique(q: QueueModel, op: TimerOp)
    requires
        q.wf(),
        q.admits(op),
    ensures
        q.step(op).wf(),
{
    match op {
        TimerOp::SetTimeout { .. } => {
            lemma_push_keeps_wf(q, q.step(op).timers.last());
        },
        TimerOp::SetInterval { .. } => {
            lemma_push_keeps_wf(q, q.step(op).timers.last());
        },
        TimerOp::Clear { id } => {
            lemma_filter_keeps_wf(q, |t: Timer| t.id != id);
        },
        TimerOp::Discard { owner } => {
            lemma_filter_keeps_wf(q, |t: Timer| t.owner != owner);
        },
        TimerOp::BeginTick => {
            let after = q.step(op).timers;
            assert forall|i: int| 0 <= i < after.len() implies 1 <= (#[trigger] after[i]).id
                < q.next_id && after[i].period <= MAX_PERIOD by {
                assert(after[i].id == q.timers[i].id);
            }
            assert forall|i: int, j: int| 0 <= i < j < after.len() implies (
            #[trigger] after[i]).id != (#[trigger] after[j]).id by {
                assert(after[i].id == q.timers[i].id);
                assert(after[j].id == q.timers[j].id);
            }
        },
        TimerOp::Pop { now } => {
            lemma_pop_keeps_wf(q, now);
        },
    }
}

/// A timer fires only when it is due, and only if it was armed before the
/// tick began.
pub proof fn law_fires_only_when_due(q: QueueModel, now: u64)
    ensures
        q.firing(now) matches Some(t) ==> t.due <= now && !t.fresh && q.holds(t.id),
{
    match q.next_index(now) {
        Some(k) => {
            assert(q.fires_next(now, k));
            assert(q.ready(now, k));
            assert(q.timers[k].id == q.firing(now)->0.id);
        },
        None => {},
    }
}

/// Among the timers that are ready, the one that fires is due first, and
/// among those that are due at the same time it was armed first.
pub proof fn law_fires_in_order(q: QueueModel, now: u64, j: int)
    requires
        q.ready(now, j),
    ensures
        q.next_index(now) matches Some(k) && (q.timers[k].due < q.timers[j].due || (
        q.timers[k].due == q.timers[j].due && k <= j)),
{
    lemma_some_fires(q, now, q.timers.len() as int, j);
    let k = q.next_index(now)->0;
    assert(q.fires_next(now, k));
}

/// Whether the timer at `k` is the one to fire among the first `n`.
spec fn best_of(q: QueueModel, now: u64, k: int, n: int) -> bool {
    &&& q.ready(now, k)
    &&& k < n
    &&& forall|m: int|
        m < n && #[trigger] q.ready(now, m) ==> q.timers[k].due < q.timers[m].due || (
        q.timers[k].due == q.timers[m].due && k <= m)
}

/// Where a timer is ready, one of the ready timers is the one to fire.
proof fn lemma_some_fires(q: QueueModel, now: u64, upto: int, j: int)
    requires
        q.ready(now, j),
        j < upto <= q.timers.len(),
    ensures
        exists|k: int| #[trigger] best_of(q, now, k, upto),
        upto == q.timers.len() ==> exists|k: int| q.fires_next(now, k),
    decreases upto,
{
    if upto == j + 1 && (forall|m: int| m < j ==> !q.ready(now, m)) {
        assert(best_of(q, now, j, upto));
    } else if upto == j + 1 {
        let m = choose|m: int| m < j && q.ready(now, m);
        lemma_some_fires(q, now, j, m);
        let k = choose|k: int| #[trigger] best_of(q, now, k, j);
        if q.timers[j].due < q.timers[k].due {
            assert(best_of(q, now, j, upto));
        } else {
            assert(best_of(q, now, k, upto));
        }
    } else {
        lemma_some_fires(q, now, upto - 1, j);
        let k = choose|k: int| #[trigger] best_of(q, now, k, upto - 1);
        if q.ready(now, upto - 1) && q.timers[upto - 1].due < q.timers[k].due {
            assert(best_of(q, now, upto - 1, upto));
        } else {
            assert(best_of(q, now, k, upto));
        }
    }
    if upto == q.timers.len() {
        let k = choose|k: int| #[trigger] best_of(q, now, k, upto);
        assert(q.fires_next(now, k)) by {
            assert forall|m: int| #[trigger] q.ready(now, m) implies q.timers[k].due
                < q.timers[m].due || (q.timers[k].due == q.timers[m].due && k <= m) by {}
        }
    }
}

/// A timer that is not armed, and whose id was handed out, is never fired.
/// This is the state after `clearTimeout` or `clearInterval` on its id, and
/// after a timer that fires once has fired.
pub proof fn law_cleared_timer_never_fires(q: QueueModel, id: u64, ops: Seq<TimerOp>)
    requires
        id < q.next_id,
        !q.holds(id),
        q.admits_all(ops),
    ensures
        !q.fires(ops, id),
        !q.run(ops).holds(id),
        id < q.run(ops).next_id,
    decreases ops.len(),
{
    if ops.len() > 0 {
        let front = ops.drop_last();
        assert forall|k: int| 0 <= k < front.len() implies #[trigger] q.run(front.take(k)).admits(
            front[k],
        ) by {
            assert(front.take(k) =~= ops.take(k));
            assert(q.run(ops.take(k)).admits(ops[k]));
        }
        law_cleared_timer_never_fires(q, id, front);
        let last = ops.len() - 1;
        let before = q.run(front);
        let op = ops.last();
        assert(ops.take(last) =~= front);
        assert(q.run(ops.take(last)).admits(ops[last]));
        let after = before.step(op);
        assert(!after.holds(id)) by {
            if after.holds(id) {
                let i = choose|i: int| 0 <= i < after.timers.len() && after.timers[i].id == id;
                lemma_step_detail(before, op, i);
                match op {
                    TimerOp::Pop { now } => {
                        law_fires_only_when_due(before, now);
                    },
                    _ => {},
                }
            }
        }
        assert(!q.fires(ops, id)) by {
            if q.fires(ops, id) {
                let k = choose|k: int|
                    0 <= k < ops.len() && (#[trigger] q.run(ops.take(k)).fired(ops[k]) matches Some(
                        t,
                    ) && t.id == id);
                if k < last {
                    assert(front.take(k) =~= ops.take(k));
                    assert(q.run(front.take(k)).fired(front[k]) == q.run(ops.take(k)).fired(
                        ops[k],
                    ));
                } else {
                    match op {
                        TimerOp::Pop { now } => {
                            law_fires_only_when_due(before, now);
                        },
                        _ => {},
                    }
                }
            }
        }
    }
}

/// The timers with this id, if any is armed, are due at `due`.
pub open spec fn due_at(q: QueueModel, id: u64, due: u64) -> bool {
    forall|i: int| 0 <= i < q.timers.len() && (#[trigger] q.timers[i]).id == id ==> q.timers[i].due
        == due
}

/// No operation of the sequence looks for due timers at `due` or later.
pub open spec fn all_before(ops: Seq<TimerOp>, due: u64) -> bool {
    forall|k: int| 0 <= k < ops.len() ==> (#[trigger] ops[k] matches TimerOp::Pop { now } ==> now < due)
}

/// A timer does not fire before it is due.
pub proof fn law_no_fire_before_due(q: QueueModel, id: u64, due: u64, ops: Seq<TimerOp>)
    requires
        id < q.next_id,
        due_at(q, id, due),
        q.admits_all(ops),
        all_before(ops, due),
    ensures
        !q.fires(ops, id),
        due_at(q.run(ops), id, due),
        id < q.run(ops).next_id,
    decreases ops.len(),
{
    if ops.len() > 0 {
        let front = ops.drop_last();
        assert forall|k: int| 0 <= k < front.len() implies #[trigger] q.run(front.take(k)).admits(
            front[k],
        ) by {
            assert(front.take(k) =~= ops.take(k));
            assert(q.run(ops.take(k)).admits(ops[k]));
        }
        assert forall|k: int| 0 <= k < front.len() implies (
        #[trigger] front[k] matches TimerOp::Pop { now } ==> now < due) by {
            assert(front[k] == ops[k]);
        }
        law_no_fire_before_due(q, id, due, front);
        let last = ops.len() - 1;
        let before = q.run(front);
        let op = ops.last();
        assert(ops.take(last) =~= front);
        assert(q.run(ops.take(last)).admits(ops[last]));
        assert(op == ops[last]);
        let after = before.step(op);
        let fired_here = before.fired(op) matches Some(t) && t.id == id;
        assert(!fired_here) by {
            if fired_here {
                match op {
                    TimerOp::Pop { now } => {
                        let k = before.next_index(now)->0;
                        assert(before.fires_next(now, k));
                        assert(before.ready(now, k));
                    },
                    _ => {},
                }
            }
        }
        assert(due_at(after, id, due)) by {
            assert forall|i: int| 0 <= i < after.timers.len() && (#[trigger] after.timers[i]).id
                == id implies after.timers[i].due == due by {
                lemma_step_detail(before, op, i);
            }
        }
        assert(!q.fires(ops, id)) by {
            if q.fires(ops, id) {
                let k = choose|k: int|
                    0 <= k < ops.len() && (#[trigger] q.run(ops.take(k)).fired(ops[k]) matches Some(
                        t,
                    ) && t.id == id);
                if k < last {
                    assert(front.take(k) =~= ops.take(k));
                    assert(q.run(front.take(k)).fired(front[k]) == q.run(ops.take(k)).fired(
                        ops[k],
                    ));
                }
            }
        }
    }
}

/// A timer that is in the queue after an operation is a timer that was
/// there, or the one that the operation armed, or the timer that the
/// operation fired, armed again.
pub proof fn lemma_step_detail(q: QueueModel, op: TimerOp, i: int)
    requires
        0 <= i < q.step(op).timers.len(),
    ensures
        ({
            let t = q.step(op).timers[i];
            ||| exists|j: int|
                0 <= j < q.timers.len() && #[trigger] q.timers[j].id == t.id && q.timers[j].due
                    == t.due && q.timers[j].frame == t.frame && (q.timers[j].fresh == t.fresh
                    || op is BeginTick)
            ||| t.id == q.next_id && t.fresh && (op is SetTimeout && t.frame
                == op->SetTimeout_frame || op is SetInterval && t.frame == op->SetInterval_frame)
            ||| t.fresh && (q.fired(op) matches Some(f) && f.id == t.id && f.frame == t.frame)
        }),
{
    let after = q.step(op).timers;
    match op {
        TimerOp::SetTimeout { .. } => {
            if i < q.timers.len() {
                assert(q.timers[i] == after[i]);
            }
        },
        TimerOp::SetInterval { .. } => {
            if i < q.timers.len() {
                assert(q.timers[i] == after[i]);
            }
        },
        TimerOp::Clear { id } => {
            let keep = |t: Timer| t.id != id;
            assert(after.contains(after[i]));
            q.timers.lemma_filter_contains_rev(keep, after[i]);
            let j = choose|j: int| 0 <= j < q.timers.len() && q.timers[j] == after[i];
            assert(q.timers[j].id == after[i].id);
        },
        TimerOp::Discard { owner } => {
            let keep = |t: Timer| t.owner != owner;
            assert(after.contains(after[i]));
            q.timers.lemma_filter_contains_rev(keep, after[i]);
            let j = choose|j: int| 0 <= j < q.timers.len() && q.timers[j] == after[i];
            assert(q.timers[j].id == after[i].id);
        },
        TimerOp::BeginTick => {
            assert(q.timers[i].id == after[i].id);
        },
        TimerOp::Pop { now } => {
            match q.next_index(now) {
                Some(k) => {
                    let rest = q.timers.remove(k);
                    if i < rest.len() {
                        let j = if i < k {
                            i
                        } else {
                            i + 1
                        };
                        assert(after[i] == q.timers[j]);
                        assert(q.timers[j].id == after[i].id);
                    }
                },
                None => {
                    assert(q.timers[i].id == after[i].id);
                },
            }
        },
    }
}

/// Every timer was registered under one of the first `count` frames, or
/// under the empty frame.
pub open spec fn frames_within(q: QueueModel, count: nat) -> bool {
    forall|i: int| 0 <= i < q.timers.len() ==> (#[trigger] q.timers[i]).frame <= count
}

/// No operation gives a timer another frame than the one it was registered
/// under.
pub proof fn lemma_step_keeps_frames(q: QueueModel, op: TimerOp, count: nat)
    requires
        frames_within(q, count),
        op matches TimerOp::SetTimeout { frame, .. } ==> frame <= count,
        op matches TimerOp::SetInterval { frame, .. } ==> frame <= count,
    ensures
        frames_within(q.step(op), count),
        q.fired(op) matches Some(t) ==> t.frame <= count,
{
    assert forall|i: int| 0 <= i < q.step(op).timers.len() implies (#[trigger] q.step(
        op,
    ).timers[i]).frame <= count by {
        lemma_step_detail(q, op, i);
        match op {
            TimerOp::Pop { now } => {
                lemma_fired_is_armed(q, now);
            },
            _ => {},
        }
    }
    match op {
        TimerOp::Pop { now } => {
            lemma_fired_is_armed(q, now);
        },
        _ => {},
    }
}

/// The timer that fires is one of the armed timers.
pub proof fn lemma_fired_is_armed(q: QueueModel, now: u64)
    ensures
        q.firing(now) matches Some(t) ==> exists|k: int|
            0 <= k < q.timers.len() && #[trigger] q.timers[k] == t,
{
    match q.next_index(now) {
        Some(k) => {
            assert(q.fires_next(now, k));
            assert(q.ready(now, k));
            assert(q.timers[k] == q.firing(now)->0);
        },
        None => {},
    }
}

/// `id = setTimeout(f, d)`, then `clearTimeout(id)` before the timer is
/// due: `f` is never called. Whatever runs between arming and clearing, as
/// long as no tick in it is at or after the due time, and whatever runs
/// after the clearing, the timer does not fire.
pub proof fn law_timeout_cleared_before_due_never_fires(
    q: QueueModel,
    now: u64,
    delay: i64,
    callback: u64,
    frame: FrameId,
    owner: u64,
    before: Seq<TimerOp>,
    after: Seq<TimerOp>,
)
    requires
        q.wf(),
        q.admits(TimerOp::SetTimeout { now, delay, callback, frame, owner }),
        q.with_timeout(now, delay, callback, frame, owner).admits_all(before),
        all_before(before, (now + wait_of(delay)) as u64),
        q.with_timeout(now, delay, callback, frame, owner).run(before).cleared(q.next_id).admits_all(
            after,
        ),
    ensures
        !q.with_timeout(now, delay, callback, frame, owner).fires(before, q.next_id),
        !q.with_timeout(now, delay, callback, frame, owner).run(before).cleared(q.next_id).fires(
            after,
            q.next_id,
        ),
{
    let id = q.next_id;
    let due = (now + wait_of(delay)) as u64;
    let armed = q.with_timeout(now, delay, callback, frame, owner);
    assert(due_at(armed, id, due)) by {
        assert forall|i: int| 0 <= i < armed.timers.len() && (#[trigger] armed.timers[i]).id
            == id implies armed.timers[i].due == due by {
            if i < q.timers.len() {
                assert(armed.timers[i] == q.timers[i]);
            }
        }
    }
    law_no_fire_before_due(armed, id, due, before);
    let at_clear = armed.run(before);
    let cleared = at_clear.cleared(id);
    assert(!cleared.holds(id)) by {
        if cleared.holds(id) {
            let i = choose|i: int| 0 <= i < cleared.timers.len() && cleared.timers[i].id == id;
            at_clear.timers.lemma_filter_pred(|t: Timer| t.id != id, i);
        }
    }
    law_cleared_timer_never_fires(cleared, id, after);
}

/// Within one tick a timer fires once at most: an interval that has fired
/// waits for the next tick, however short its period.
pub proof fn law_fires_once_per_tick(q: QueueModel, ops: Seq<TimerOp>, first: int, second: int)
    requires
        q.wf(),
        q.admits_all(ops),
        0 <= first < second < ops.len(),
        forall|k: int| first <= k < second ==> !(#[trigger] ops[k] is BeginTick),
        q.run(ops.take(first)).fired(ops[first]) is Some,
        q.run(ops.take(second)).fired(ops[second]) is Some,
    ensures
        q.run(ops.take(first)).fired(ops[first])->0.id != q.run(ops.take(second)).fired(
            ops[second],
        )->0.id,
{
    let start = q.run(ops.take(first));
    let t = start.fired(ops[first])->0;
    lemma_wf_after(q, ops, first);
    assert(start.admits(ops[first]));
    let now = ops[first]->Pop_now;
    law_fires_only_when_due(start, now);
    lemma_run_take(q, ops, first);
    let next = start.step(ops[first]);
    assert(waits(next, t.id)) by {
        assert forall|i: int| 0 <= i < next.timers.len() && (#[trigger] next.timers[i]).id
            == t.id implies next.timers[i].fresh by {
            lemma_step_detail(start, ops[first], i);
            if !next.timers[i].fresh {
                let j = choose|j: int|
                    0 <= j < start.timers.len() && #[trigger] start.timers[j].id == t.id
                        && start.timers[j].due == next.timers[i].due && (start.timers[j].fresh
                        == next.timers[i].fresh);
                let k = start.next_index(now)->0;
                assert(start.fires_next(now, k));
                assert(start.ready(now, k));
                let rest = start.timers.remove(k);
                assert(i < rest.len());
                let src = if i < k {
                    i
                } else {
                    i + 1
                };
                assert(next.timers[i] == start.timers[src]);
                if src < k {
                    assert(start.timers[src].id != start.timers[k].id);
                } else {
                    assert(start.timers[k].id != start.timers[src].id);
                }
            }
        }
    }
    lemma_waits_until_tick(q, ops, first + 1, second, t.id);
    let at_second = q.run(ops.take(second));
    match ops[second] {
        TimerOp::Pop { now } => {
            let k = at_second.next_index(now)->0;
            assert(at_second.fires_next(now, k));
            assert(at_second.ready(now, k));
        },
        _ => {},
    }
}

/// Every timer with this id waits for the next tick.
pub open spec fn waits(q: QueueModel, id: u64) -> bool {
    forall|i: int| 0 <= i < q.timers.len() && (#[trigger] q.timers[i]).id == id ==> q.timers[i].fresh
}

/// A queue is well formed after any operations that it takes.
pub proof fn lemma_wf_after(q: QueueModel, ops: Seq<TimerOp>, upto: int)
    requires
        q.wf(),
        q.admits_all(ops),
        0 <= upto <= ops.len(),
    ensures
        q.run(ops.take(upto)).wf(),
    decreases upto,
{
    if upto > 0 {
        lemma_wf_after(q, ops, upto - 1);
        lemma_run_take(q, ops, upto - 1);
        law_ids_stay_unique(q.run(ops.take(upto - 1)), ops[upto - 1]);
    } else {
        assert(ops.take(0) =~= Seq::empty());
    }
}

/// A timer that waits for the next tick goes on waiting until one begins.
proof fn lemma_waits_until_tick(q: QueueModel, ops: Seq<TimerOp>, from: int, upto: int, id: u64)
    requires
        q.wf(),
        q.admits_all(ops),
        0 <= from <= upto <= ops.len(),
        waits(q.run(ops.take(from)), id),
        id < q.run(ops.take(from)).next_id,
        forall|k: int| from <= k < upto ==> !(#[trigger] ops[k] is BeginTick),
    ensures
        waits(q.run(ops.take(upto)), id),
        id < q.run(ops.take(upto)).next_id,
    decreases upto - from,
{
    if from < upto {
        lemma_waits_until_tick(q, ops, from, upto - 1, id);
        lemma_run_take(q, ops, upto - 1);
        let before = q.run(ops.take(upto - 1));
        let op = ops[upto - 1];
        assert(before.admits(op));
        let after = before.step(op);
        assert forall|i: int| 0 <= i < after.timers.len() && (#[trigger] after.timers[i]).id
            == id implies after.timers[i].fresh by {
            lemma_step_detail(before, op, i);
        }
    }
}

} // verus!

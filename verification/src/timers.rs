//! The timers of one isolate: `setTimeout`, `setInterval`, `clearTimeout`
//! and `clearInterval`, and the order in which due timers fire.
//!
//! Time is the reading of a monotonic clock in milliseconds. A tick of the
//! event loop fires the timers that are due and were armed before the tick
//! began, earliest first; among timers that are due at the same time the one
//! that was armed first fires first. A timer that is armed or re-armed
//! during a tick waits for the next one.

use vstd::prelude::*;
use crate::context::FrameId;

verus! {

broadcast use Seq::lemma_filter_push;

/// The largest clock reading that the queue takes.
pub const MAX_CLOCK: u64 = 0x7fff_ffff_ffff_ffff;

/// The largest period of an interval.
pub const MAX_PERIOD: u64 = 0x7fff_ffff_ffff_ffff;

/// An armed timer.
#[derive(Clone, Copy, Debug, PartialEq, Eq, Structural)]
pub struct Timer {
    /// The number that the script holds for it.
    pub id: u64,
    /// The clock reading from which it may fire.
    pub due: u64,
    /// 0 for a timer that fires once, else the milliseconds between firings.
    pub period: u64,
    /// The handle of the function to call.
    pub callback: u64,
    /// The async context frame that was active when it was registered.
    pub frame: FrameId,
    /// The request during which it was registered.
    pub owner: u64,
    /// Armed during the current tick: it waits for the next one.
    pub fresh: bool,
}

/// The delay that is waited for: a negative one counts as none.
pub open spec fn wait_of(delay: i64) -> nat {
    if delay > 0 {
        delay as nat
    } else {
        0
    }
}

/// The period of an interval: at least one millisecond.
pub open spec fn period_of(delay: i64) -> nat {
    if delay > 1 {
        delay as nat
    } else {
        1
    }
}

/// What a timer queue stands for: the armed timers in the order in which
/// they were armed, and the next id to hand out.
pub struct QueueModel {
    pub timers: Seq<Timer>,
    pub next_id: u64,
}

impl QueueModel {
    /// The queue of a new isolate.
    pub open spec fn initial() -> QueueModel {
        QueueModel { timers: Seq::empty(), next_id: 1 }
    }

    /// Ids are positive, were handed out by this queue, and name one timer
    /// each; periods are within their limit.
    pub open spec fn wf(self) -> bool {
        &&& self.next_id >= 1
        &&& forall|i: int|
            0 <= i < self.timers.len() ==> 1 <= (#[trigger] self.timers[i]).id < self.next_id
                && self.timers[i].period <= MAX_PERIOD
        &&& forall|i: int, j: int|
            0 <= i < j < self.timers.len() ==> (#[trigger] self.timers[i]).id != (
            #[trigger] self.timers[j]).id
    }

    /// Whether `due` is the earliest time at which an armed timer is due.
    pub open spec fn earliest(self, due: u64) -> bool {
        &&& exists|i: int| 0 <= i < self.timers.len() && (#[trigger] self.timers[i]).due == due
        &&& forall|i: int| 0 <= i < self.timers.len() ==> due <= (#[trigger] self.timers[i]).due
    }

    /// Whether a timer with this id is armed.
    pub open spec fn holds(self, id: u64) -> bool {
        exists|i: int| 0 <= i < self.timers.len() && (#[trigger] self.timers[i]).id == id
    }

    /// After `setTimeout` at `now`.
    pub open spec fn with_timeout(
        self,
        now: u64,
        delay: i64,
        callback: u64,
        frame: FrameId,
        owner: u64,
    ) -> QueueModel {
        QueueModel {
            timers: self.timers.push(
                Timer {
                    id: self.next_id,
                    due: (now + wait_of(delay)) as u64,
                    period: 0,
                    callback,
                    frame,
                    owner,
                    fresh: true,
                },
            ),
            next_id: (self.next_id + 1) as u64,
        }
    }

    /// After `setInterval` at `now`.
    pub open spec fn with_interval(
        self,
        now: u64,
        delay: i64,
        callback: u64,
        frame: FrameId,
        owner: u64,
    ) -> QueueModel {
        QueueModel {
            timers: self.timers.push(
                Timer {
                    id: self.next_id,
                    due: (now + wait_of(delay)) as u64,
                    period: period_of(delay) as u64,
                    callback,
                    frame,
                    owner,
                    fresh: true,
                },
            ),
            next_id: (self.next_id + 1) as u64,
        }
    }

    /// After `clearTimeout(id)` or `clearInterval(id)`.
    pub open spec fn cleared(self, id: u64) -> QueueModel {
        QueueModel { timers: self.timers.filter(|t: Timer| t.id != id), ..self }
    }

    /// After the timers of request `owner` were dropped.
    pub open spec fn discarded(self, owner: u64) -> QueueModel {
        QueueModel { timers: self.timers.filter(|t: Timer| t.owner != owner), ..self }
    }

    /// At the start of a tick: every armed timer may fire in it.
    pub open spec fn ticked(self) -> QueueModel {
        QueueModel { timers: self.timers.map_values(|t: Timer| Timer { fresh: false, ..t }), ..self }
    }

    /// Whether the timer at `k` may fire in this tick at `now`.
    pub open spec fn ready(self, now: u64, k: int) -> bool {
        0 <= k < self.timers.len() && !self.timers[k].fresh && self.timers[k].due <= now
    }

    /// Whether the timer at `k` is the one to fire now: it is ready, and no
    /// ready timer is due earlier, or due at the same time and armed earlier.
    pub open spec fn fires_next(self, now: u64, k: int) -> bool {
        &&& self.ready(now, k)
        &&& forall|j: int| #[trigger]
            self.ready(now, j) ==> self.timers[k].due < self.timers[j].due || (self.timers[k].due
                == self.timers[j].due && k <= j)
    }

    /// The place of the timer to fire now, if one is ready.
    pub open spec fn next_index(self, now: u64) -> Option<int> {
        if exists|k: int| self.fires_next(now, k) {
            Some(choose|k: int| self.fires_next(now, k))
        } else {
            None
        }
    }

    /// The timer that fires now, if one is ready.
    pub open spec fn firing(self, now: u64) -> Option<Timer> {
        match self.next_index(now) {
            Some(k) => Some(self.timers[k]),
            None => None,
        }
    }

    /// After the timer to fire now was taken out: a timer that fires once is
    /// gone, an interval is armed again for `now` plus its period.
    pub open spec fn popped(self, now: u64) -> QueueModel {
        match self.next_index(now) {
            Some(k) => {
                let t = self.timers[k];
                let rest = self.timers.remove(k);
                if t.period > 0 {
                    QueueModel {
                        timers: rest.push(
                            Timer { due: (now + t.period) as u64, fresh: true, ..t },
                        ),
                        ..self
                    }
                } else {
                    QueueModel { timers: rest, ..self }
                }
            },
            None => self,
        }
    }

    /// At most one timer is the one to fire now.
    pub proof fn lemma_fires_next_unique(self, now: u64, a: int, b: int)
        requires
            self.fires_next(now, a),
            self.fires_next(now, b),
        ensures
            a == b,
    {
        assert(self.ready(now, a));
        assert(self.ready(now, b));
    }
}

/// One operation on a timer queue.
pub enum TimerOp {
    SetTimeout { now: u64, delay: i64, callback: u64, frame: FrameId, owner: u64 },
    SetInterval { now: u64, delay: i64, callback: u64, frame: FrameId, owner: u64 },
    Clear { id: u64 },
    Discard { owner: u64 },
    BeginTick,
    Pop { now: u64 },
}

impl QueueModel {
    /// The queue after one operation.
    pub open spec fn step(self, op: TimerOp) -> QueueModel {
        match op {
            TimerOp::SetTimeout { now, delay, callback, frame, owner } => self.with_timeout(
                now,
                delay,
                callback,
                frame,
                owner,
            ),
            TimerOp::SetInterval { now, delay, callback, frame, owner } => self.with_interval(
                now,
                delay,
                callback,
                frame,
                owner,
            ),
            TimerOp::Clear { id } => self.cleared(id),
            TimerOp::Discard { owner } => self.discarded(owner),
            TimerOp::BeginTick => self.ticked(),
            TimerOp::Pop { now } => self.popped(now),
        }
    }

    /// The timer that one operation fires.
    pub open spec fn fired(self, op: TimerOp) -> Option<Timer> {
        match op {
            TimerOp::Pop { now } => self.firing(now),
            _ => None,
        }
    }

    /// The queue after a sequence of operations.
    pub open spec fn run(self, ops: Seq<TimerOp>) -> QueueModel
        decreases ops.len(),
    {
        if ops.len() == 0 {
            self
        } else {
            self.run(ops.drop_last()).step(ops.last())
        }
    }

    /// Whether the queue takes the operation: the clock reading is within
    /// its limit, and an id is left for a new timer.
    pub open spec fn admits(self, op: TimerOp) -> bool {
        match op {
            TimerOp::SetTimeout { now, .. } => self.next_id < u64::MAX && now <= MAX_CLOCK,
            TimerOp::SetInterval { now, .. } => self.next_id < u64::MAX && now <= MAX_CLOCK,
            TimerOp::Pop { now } => now <= MAX_CLOCK,
            _ => true,
        }
    }

    /// Whether the queue takes each operation of a sequence in its turn.
    pub open spec fn admits_all(self, ops: Seq<TimerOp>) -> bool {
        forall|k: int| 0 <= k < ops.len() ==> #[trigger] self.run(ops.take(k)).admits(ops[k])
    }

    /// Whether some operation of the sequence fires the timer `id`.
    pub open spec fn fires(self, ops: Seq<TimerOp>, id: u64) -> bool {
        exists|k: int|
            0 <= k < ops.len() && (#[trigger] self.run(ops.take(k)).fired(ops[k]) matches Some(t)
                && t.id == id)
    }
}

/// The timers of one isolate.
#[derive(Debug)]
pub struct TimerQueue {
    timers: Vec<Timer>,
    next_id: u64,
}

impl View for TimerQueue {
    type V = QueueModel;

    closed spec fn view(&self) -> QueueModel {
        QueueModel { timers: self.timers@, next_id: self.next_id }
    }
}

impl TimerQueue {
    /// A queue without a timer; the first id it hands out is 1.
    pub fn new() -> (r: TimerQueue)
        ensures
            r@ == QueueModel::initial(),
            r@.wf(),
    {
        TimerQueue { timers: Vec::new(), next_id: 1 }
    }

    /// The number of armed timers.
    pub fn len(&self) -> (n: usize)
        ensures
            n == self@.timers.len(),
    {
        self.timers.len()
    }

    /// Whether the queue can hand out another id.
    pub fn has_room(&self) -> (r: bool)
        ensures
            r == (self@.next_id < u64::MAX),
    {
        self.next_id < u64::MAX
    }

    /// Whether a timer with this id is armed.
    pub fn is_armed(&self, id: u64) -> (r: bool)
        ensures
            r == self@.holds(id),
    {
        let mut i: usize = 0;
        while i < self.timers.len()
            invariant
                0 <= i <= self.timers.len(),
                forall|j: int| 0 <= j < i ==> (#[trigger] self.timers@[j]).id != id,
            decreases self.timers.len() - i,
        {
            if self.timers[i].id == id {
                assert(self@.timers[i as int].id == id);
                return true;
            }
            i += 1;
        }
        false
    }

    /// `setTimeout(callback, delay)` at `now`, under the active frame `frame`
    /// and during request `owner`. The timer fires once, not before `now`
    /// plus the delay; a negative delay counts as none. Returns its id.
    pub fn set_timeout(
        &mut self,
        now: u64,
        delay: i64,
        callback: u64,
        frame: FrameId,
        owner: u64,
    ) -> (id: u64)
        requires
            old(self)@.wf(),
            old(self)@.next_id < u64::MAX,
            now <= MAX_CLOCK,
        ensures
            final(self)@ == old(self)@.with_timeout(now, delay, callback, frame, owner),
            final(self)@.wf(),
            id == old(self)@.next_id,
            id >= 1,
            !old(self)@.holds(id),
    {
        let id = self.next_id;
        let wait: u64 = if delay > 0 {
            delay as u64
        } else {
            0
        };
        self.timers.push(
            Timer { id, due: now + wait, period: 0, callback, frame, owner, fresh: true },
        );
        self.next_id = id + 1;
        proof {
            lemma_push_keeps_wf(old(self)@, self.timers@.last());
        }
        id
    }

    /// `setInterval(callback, delay)` at `now`: as `set_timeout`, but the
    /// timer is armed again each time it fires, for the time of firing plus
    /// its period. The period is the delay, and at least one millisecond.
    pub fn set_interval(
        &mut self,
        now: u64,
        delay: i64,
        callback: u64,
        frame: FrameId,
        owner: u64,
    ) -> (id: u64)
        requires
            old(self)@.wf(),
            old(self)@.next_id < u64::MAX,
            now <= MAX_CLOCK,
        ensures
            final(self)@ == old(self)@.with_interval(now, delay, callback, frame, owner),
            final(self)@.wf(),
            id == old(self)@.next_id,
            id >= 1,
            !old(self)@.holds(id),
    {
        let id = self.next_id;
        let wait: u64 = if delay > 0 {
            delay as u64
        } else {
            0
        };
        let period: u64 = if delay > 1 {
            delay as u64
        } else {
            1
        };
        self.timers.push(Timer { id, due: now + wait, period, callback, frame, owner, fresh: true });
        self.next_id = id + 1;
        proof {
            lemma_push_keeps_wf(old(self)@, self.timers@.last());
        }
        id
    }

    /// `clearTimeout(id)` and `clearInterval(id)`: the timer with this id is
    /// disarmed. Where no such timer is armed, nothing changes.
    pub fn clear(&mut self, id: u64)
        requires
            old(self)@.wf(),
        ensures
            final(self)@ == old(self)@.cleared(id),
            final(self)@.wf(),
            !final(self)@.holds(id),
            !old(self)@.holds(id) ==> final(self)@ == old(self)@,
    {
        let ghost keep = |t: Timer| t.id != id;
        let mut kept: Vec<Timer> = Vec::new();
        let mut i: usize = 0;
        while i < self.timers.len()
            invariant
                0 <= i <= self.timers.len(),
                self == old(self),
                keep == |t: Timer| t.id != id,
                kept@ == self.timers@.take(i as int).filter(keep),
            decreases self.timers.len() - i,
        {
            let t = self.timers[i];
            assert(self.timers@.take(i as int + 1) =~= self.timers@.take(i as int).push(t));
            if t.id != id {
                kept.push(t);
            }
            i += 1;
        }
        assert(self.timers@.take(i as int) =~= self.timers@);
        proof {
            lemma_filter_keeps_wf(old(self)@, keep);
            if !old(self)@.holds(id) {
                lemma_filter_all(old(self)@.timers, keep);
            }
            assert(!(QueueModel { timers: kept@, next_id: self.next_id }).holds(id)) by {
                assert forall|k: int| 0 <= k < kept@.len() implies (#[trigger] kept@[k]).id
                    != id by {
                    old(self)@.timers.lemma_filter_pred(keep, k);
                }
            }
        }
        self.timers = kept;
    }

    /// Drops the timers that were registered during request `owner`.
    pub fn discard(&mut self, owner: u64)
        requires
            old(self)@.wf(),
        ensures
            final(self)@ == old(self)@.discarded(owner),
            final(self)@.wf(),
    {
        let ghost keep = |t: Timer| t.owner != owner;
        let mut kept: Vec<Timer> = Vec::new();
        let mut i: usize = 0;
        while i < self.timers.len()
            invariant
                0 <= i <= self.timers.len(),
                self == old(self),
                keep == |t: Timer| t.owner != owner,
                kept@ == self.timers@.take(i as int).filter(keep),
            decreases self.timers.len() - i,
        {
            let t = self.timers[i];
            assert(self.timers@.take(i as int + 1) =~= self.timers@.take(i as int).push(t));
            if t.owner != owner {
                kept.push(t);
            }
            i += 1;
        }
        assert(self.timers@.take(i as int) =~= self.timers@);
        proof {
            lemma_filter_keeps_wf(old(self)@, keep);
        }
        self.timers = kept;
    }

    /// Starts a tick: every timer that is armed now may fire in it.
    pub fn begin_tick(&mut self)
        requires
            old(self)@.wf(),
        ensures
            final(self)@ == old(self)@.ticked(),
            final(self)@.wf(),
    {
        let mut i: usize = 0;
        while i < self.timers.len()
            invariant
                0 <= i <= self.timers.len(),
                self.next_id == old(self).next_id,
                self.timers.len() == old(self).timers.len(),
                forall|j: int|
                    0 <= j < i ==> self.timers@[j] == (Timer {
                        fresh: false,
                        ..old(self).timers@[j]
                    }),
                forall|j: int| i <= j < self.timers.len() ==> self.timers@[j] == old(self).timers@[j],
            decreases self.timers.len() - i,
        {
            let t = self.timers[i];
            self.timers.set(i, Timer { fresh: false, ..t });
            i += 1;
        }
        assert(self@.timers =~= old(self)@.ticked().timers);
    }

    /// The earliest time at which an armed timer is due, for the event loop
    /// to sleep until then. `None` where no timer is armed.
    pub fn next_due(&self) -> (r: Option<u64>)
        ensures
            r is None <==> self@.timers.len() == 0,
            r matches Some(due) ==> self@.earliest(due),
    {
        if self.timers.len() == 0 {
            return None;
        }
        let mut due = self.timers[0].due;
        let ghost mut at: int = 0;
        let mut i: usize = 1;
        while i < self.timers.len()
            invariant
                1 <= i <= self.timers.len(),
                0 <= at < i,
                self.timers@[at].due == due,
                forall|j: int| 0 <= j < i ==> due <= self.timers@[j].due,
            decreases self.timers.len() - i,
        {
            if self.timers[i].due < due {
                due = self.timers[i].due;
                proof {
                    at = i as int;
                }
            }
            i += 1;
        }
        assert(self@.timers[at].due == due);
        Some(due)
    }

    /// Takes the timer that is to fire at `now` out of the queue and returns
    /// it as it was armed, or returns `None` where no timer is ready. An
    /// interval is armed again at once, for `now` plus its period, so that
    /// clearing it from its own callback stops it.
    pub fn pop_due(&mut self, now: u64) -> (r: Option<Timer>)
        requires
            old(self)@.wf(),
            now <= MAX_CLOCK,
        ensures
            r == old(self)@.firing(now),
            final(self)@ == old(self)@.popped(now),
            final(self)@.wf(),
    {
        let ghost q = self@;
        let mut best: Option<usize> = None;
        let mut i: usize = 0;
        while i < self.timers.len()
            invariant
                0 <= i <= self.timers.len(),
                self == old(self),
                q == self@,
                best is None ==> forall|j: int| 0 <= j < i ==> !q.ready(now, j),
                best matches Some(k) ==> {
                    &&& k < i
                    &&& q.ready(now, k as int)
                    &&& forall|j: int|
                        0 <= j < i && #[trigger] q.ready(now, j) ==> q.timers[k as int].due
                            < q.timers[j].due || (q.timers[k as int].due == q.timers[j].due && k
                            <= j)
                },
            decreases self.timers.len() - i,
        {
            let t = self.timers[i];
            if !t.fresh && t.due <= now {
                match best {
                    None => {
                        best = Some(i);
                    },
                    Some(k) => {
                        if t.due < self.timers[k].due {
                            best = Some(i);
                        }
                    },
                }
            }
            i += 1;
        }
        match best {
            None => {
                proof {
                    assert forall|k: int| !q.fires_next(now, k) by {
                        if q.fires_next(now, k) {
                            assert(q.ready(now, k));
                        }
                    }
                }
                None
            },
            Some(k) => {
                proof {
                    assert(q.fires_next(now, k as int));
                    let c = choose|c: int| q.fires_next(now, c);
                    q.lemma_fires_next_unique(now, c, k as int);
                    lemma_pop_keeps_wf(q, now);
                }
                let t = self.timers.remove(k);
                if t.period > 0 {
                    self.timers.push(Timer { due: now + t.period, fresh: true, ..t });
                }
                Some(t)
            },
        }
    }
}

/// A timer with the next id keeps a queue well formed.
pub proof fn lemma_push_keeps_wf(q: QueueModel, t: Timer)
    requires
        q.wf(),
        q.next_id < u64::MAX,
        t.id == q.next_id,
        t.period <= MAX_PERIOD,
    ensures
        (QueueModel { timers: q.timers.push(t), next_id: (q.next_id + 1) as u64 }).wf(),
{
    let all = q.timers.push(t);
    assert forall|i: int| 0 <= i < all.len() implies 1 <= (#[trigger] all[i]).id < q.next_id + 1
        && all[i].period <= MAX_PERIOD by {
        if i < q.timers.len() {
            assert(all[i] == q.timers[i]);
        }
    }
    assert forall|i: int, j: int| 0 <= i < j < all.len() implies (#[trigger] all[i]).id != (
    #[trigger] all[j]).id by {
        assert(all[i] == q.timers[i]);
        if j < q.timers.len() {
            assert(all[j] == q.timers[j]);
        }
    }
}

/// Dropping timers keeps a queue well formed.
pub proof fn lemma_filter_keeps_wf(q: QueueModel, keep: spec_fn(Timer) -> bool)
    requires
        q.wf(),
    ensures
        (QueueModel { timers: q.timers.filter(keep), ..q }).wf(),
    decreases q.timers.len(),
{
    reveal(Seq::filter);
    if q.timers.len() > 0 {
        let last = q.timers.len() - 1;
        let shorter = QueueModel { timers: q.timers.drop_last(), ..q };
        assert(shorter.wf()) by {
            assert forall|i: int| 0 <= i < shorter.timers.len() implies 1 <= (
            #[trigger] shorter.timers[i]).id < q.next_id && shorter.timers[i].period
                <= MAX_PERIOD by {
                assert(shorter.timers[i] == q.timers[i]);
            }
            assert forall|i: int, j: int| 0 <= i < j < shorter.timers.len() implies (
            #[trigger] shorter.timers[i]).id != (#[trigger] shorter.timers[j]).id by {
                assert(shorter.timers[i] == q.timers[i]);
                assert(shorter.timers[j] == q.timers[j]);
            }
        }
        lemma_filter_keeps_wf(shorter, keep);
        let kept = shorter.timers.filter(keep);
        let after = QueueModel { timers: kept, ..q };
        assert(after.wf());
        if keep(q.timers.last()) {
            let all = kept.push(q.timers.last());
            assert(q.timers.filter(keep) == all);
            assert forall|i: int| 0 <= i < all.len() implies 1 <= (#[trigger] all[i]).id
                < q.next_id && all[i].period <= MAX_PERIOD by {
                if i < kept.len() {
                    assert(all[i] == after.timers[i]);
                } else {
                    assert(all[i] == q.timers[last]);
                }
            }
            assert forall|i: int, j: int| 0 <= i < j < all.len() implies (#[trigger] all[i]).id != (
            #[trigger] all[j]).id by {
                assert(all[i] == after.timers[i]);
                if j < kept.len() {
                    assert(all[j] == after.timers[j]);
                } else {
                    assert(kept.contains(all[i]));
                    shorter.timers.lemma_filter_contains_rev(keep, all[i]);
                    let at = choose|at: int|
                        0 <= at < shorter.timers.len() && shorter.timers[at] == all[i];
                    assert(q.timers[at] == all[i]);
                    assert(q.timers[at].id != q.timers[last].id);
                }
            }
        } else {
            assert(q.timers.filter(keep) == kept);
        }
    }
}

/// Dropping the timers that fail a test drops nothing where every timer passes.
pub proof fn lemma_filter_all(timers: Seq<Timer>, keep: spec_fn(Timer) -> bool)
    requires
        forall|i: int| 0 <= i < timers.len() ==> keep(#[trigger] timers[i]),
    ensures
        timers.filter(keep) == timers,
    decreases timers.len(),
{
    if timers.len() > 0 {
        let front = timers.drop_last();
        lemma_filter_all(front, keep);
        assert(front.push(timers.last()) =~= timers);
        assert(front.push(timers.last()).filter(keep) == front.filter(keep).push(timers.last()));
    } else {
        assert(timers.filter(keep) =~= timers) by {
            reveal(Seq::filter);
        }
    }
}

/// Firing a timer keeps a queue well formed.
pub proof fn lemma_pop_keeps_wf(q: QueueModel, now: u64)
    requires
        q.wf(),
    ensures
        q.popped(now).wf(),
{
    match q.next_index(now) {
        Some(k) => {
            assert(q.fires_next(now, k));
            assert(q.ready(now, k));
            let t = q.timers[k];
            let rest = q.timers.remove(k);
            assert forall|i: int| 0 <= i < rest.len() implies 1 <= (#[trigger] rest[i]).id
                < q.next_id && rest[i].period <= MAX_PERIOD && rest[i].id != t.id by {
                if i < k {
                    assert(rest[i] == q.timers[i]);
                } else {
                    assert(rest[i] == q.timers[i + 1]);
                }
            }
            assert forall|i: int, j: int| 0 <= i < j < rest.len() implies (#[trigger] rest[i]).id
                != (#[trigger] rest[j]).id by {
                let a = if i < k {
                    i
                } else {
                    i + 1
                };
                let b = if j < k {
                    j
                } else {
                    j + 1
                };
                assert(rest[i] == q.timers[a]);
                assert(rest[j] == q.timers[b]);
            }
        },
        None => {},
    }
}

} // verus!

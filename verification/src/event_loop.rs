//! The event loop of one isolate: what the driver does next.
//!
//! The loop works in ticks. A tick drains the engine's microtasks, then
//! resolves the host tasks that have completed, then fires the timers that
//! are due, and before each callback into the script the microtasks that
//! the last one left are drained. The driver asks for one step at a time,
//! performs it, and asks again.

use vstd::prelude::*;
use crate::context::FrameId;
use crate::timer_laws::{frames_within, lemma_step_keeps_frames};
use crate::timers::{QueueModel, Timer, TimerOp, TimerQueue, MAX_CLOCK};

verus! {

broadcast use Seq::lemma_filter_push;

/// A host-side operation that the script waits for: a fetch, the next
/// chunk of a body, a delay.
#[derive(Clone, Copy, Debug, PartialEq, Eq, Structural)]
pub struct HostTask {
    /// The number of the task.
    pub id: u64,
    /// The handle of the promise to resolve when the task has completed.
    pub resolver: u64,
    /// The async context frame that was active when the task was started.
    pub frame: FrameId,
    /// The request during which it was started.
    pub owner: u64,
}

/// Where a tick stands.
#[derive(Clone, Copy, Debug, PartialEq, Eq, Structural)]
pub enum Stage {
    /// Between two ticks.
    Idle,
    /// Completed host tasks are being resolved.
    Tasks,
    /// Due timers are being fired.
    Timers,
}

/// What the driver does next.
#[derive(Clone, Copy, Debug, PartialEq, Eq, Structural)]
pub enum Step {
    /// Drain the engine's microtask queue until it is empty.
    Drain,
    /// Resolve the promise of this completed task, under its frame.
    Resolve(HostTask),
    /// Call the callback of this timer, under its frame.
    Fire(Timer),
    /// The tick is over: check the budgets, then wait for a request, a
    /// completion or the next timer.
    Rest,
}

/// What an event loop stands for.
pub struct LoopModel {
    pub timers: QueueModel,
    /// The tasks under way, in the order in which they were started.
    pub pending: Seq<HostTask>,
    /// The tasks that have completed and wait to be resolved, in the order
    /// in which they completed.
    pub completed: Seq<HostTask>,
    /// The number of the next task.
    pub next_task: u64,
    /// The script ran since the microtasks were last drained.
    pub dirty: bool,
    pub stage: Stage,
}

impl LoopModel {
    /// The loop of a new isolate.
    pub open spec fn initial() -> LoopModel {
        LoopModel {
            timers: QueueModel::initial(),
            pending: Seq::empty(),
            completed: Seq::empty(),
            next_task: 1,
            dirty: false,
            stage: Stage::Idle,
        }
    }

    /// The timer queue is well formed.
    pub open spec fn wf(self) -> bool {
        self.timers.wf()
    }

    /// The timers as the coming step sees them: a tick that begins here
    /// admits every timer that is armed.
    pub open spec fn timers_in_tick(self) -> QueueModel {
        if self.stage == Stage::Idle {
            self.timers.ticked()
        } else {
            self.timers
        }
    }

    /// Whether the coming step may still resolve host tasks.
    pub open spec fn resolving(self) -> bool {
        self.stage == Stage::Idle || self.stage == Stage::Tasks
    }

    /// The step that the driver is to take at `now`.
    pub open spec fn step_at(self, now: u64) -> Step {
        if self.dirty {
            Step::Drain
        } else if self.resolving() && self.completed.len() > 0 {
            Step::Resolve(self.completed[0])
        } else {
            match self.timers_in_tick().firing(now) {
                Some(timer) => Step::Fire(timer),
                None => Step::Rest,
            }
        }
    }

    /// The loop after that step was handed out.
    pub open spec fn advanced(self, now: u64) -> LoopModel {
        let timers = self.timers_in_tick();
        let stage = if self.stage == Stage::Idle {
            Stage::Tasks
        } else {
            self.stage
        };
        if self.dirty {
            LoopModel { timers, stage, dirty: false, ..self }
        } else if self.resolving() && self.completed.len() > 0 {
            LoopModel {
                timers,
                stage: Stage::Tasks,
                completed: self.completed.drop_first(),
                dirty: true,
                ..self
            }
        } else if timers.firing(now) is Some {
            LoopModel { timers: timers.popped(now), stage: Stage::Timers, dirty: true, ..self }
        } else {
            LoopModel { timers, stage: Stage::Idle, ..self }
        }
    }

    /// After a host task was started.
    pub open spec fn with_task(self, resolver: u64, frame: FrameId, owner: u64) -> LoopModel {
        LoopModel {
            pending: self.pending.push(HostTask { id: self.next_task, resolver, frame, owner }),
            next_task: (self.next_task + 1) as u64,
            ..self
        }
    }

    /// After the host task `id` has completed: it waits to be resolved,
    /// behind those that completed before it.
    pub open spec fn completing(self, id: u64) -> LoopModel {
        LoopModel {
            pending: self.pending.filter(|t: HostTask| t.id != id),
            completed: self.completed + self.pending.filter(|t: HostTask| t.id == id),
            ..self
        }
    }

    /// After the timers and host tasks of request `owner` were dropped.
    pub open spec fn discarded(self, owner: u64) -> LoopModel {
        LoopModel {
            timers: self.timers.discarded(owner),
            pending: self.pending.filter(|t: HostTask| t.owner != owner),
            completed: self.completed.filter(|t: HostTask| t.owner != owner),
            ..self
        }
    }

    /// Nothing is scheduled: no microtask may be waiting, no host task is
    /// under way or waits to be resolved, and no timer is armed.
    pub open spec fn quiescent(self) -> bool {
        !self.dirty && self.pending.len() == 0 && self.completed.len() == 0
            && self.timers.timers.len() == 0
    }
}

/// The event loop of one isolate.
#[derive(Debug)]
pub struct EventLoop {
    timers: TimerQueue,
    pending: Vec<HostTask>,
    completed: Vec<HostTask>,
    next_task: u64,
    dirty: bool,
    stage: Stage,
}

impl View for EventLoop {
    type V = LoopModel;

    closed spec fn view(&self) -> LoopModel {
        LoopModel {
            timers: self.timers@,
            pending: self.pending@,
            completed: self.completed@,
            next_task: self.next_task,
            dirty: self.dirty,
            stage: self.stage,
        }
    }
}

/// The tasks under another number than `id`, in their order.
fn tasks_without(tasks: &Vec<HostTask>, id: u64) -> (r: Vec<HostTask>)
    ensures
        r@ == tasks@.filter(|t: HostTask| t.id != id),
{
    let ghost keep = |t: HostTask| t.id != id;
    let mut kept: Vec<HostTask> = Vec::new();
    let mut i: usize = 0;
    while i < tasks.len()
        invariant
            0 <= i <= tasks.len(),
            keep == |t: HostTask| t.id != id,
            kept@ == tasks@.take(i as int).filter(keep),
        decreases tasks.len() - i,
    {
        let t = tasks[i];
        assert(tasks@.take(i as int + 1) =~= tasks@.take(i as int).push(t));
        if t.id != id {
            kept.push(t);
        }
        i += 1;
    }
    assert(tasks@.take(i as int) =~= tasks@);
    kept
}

/// The tasks under the number `id`, in their order.
fn tasks_with(tasks: &Vec<HostTask>, id: u64) -> (r: Vec<HostTask>)
    ensures
        r@ == tasks@.filter(|t: HostTask| t.id == id),
{
    let ghost keep = |t: HostTask| t.id == id;
    let mut kept: Vec<HostTask> = Vec::new();
    let mut i: usize = 0;
    while i < tasks.len()
        invariant
            0 <= i <= tasks.len(),
            keep == |t: HostTask| t.id == id,
            kept@ == tasks@.take(i as int).filter(keep),
        decreases tasks.len() - i,
    {
        let t = tasks[i];
        assert(tasks@.take(i as int + 1) =~= tasks@.take(i as int).push(t));
        if t.id == id {
            kept.push(t);
        }
        i += 1;
    }
    assert(tasks@.take(i as int) =~= tasks@);
    kept
}

/// The tasks of other requests than `owner`, in their order.
fn tasks_of_others(tasks: &Vec<HostTask>, owner: u64) -> (r: Vec<HostTask>)
    ensures
        r@ == tasks@.filter(|t: HostTask| t.owner != owner),
{
    let ghost keep = |t: HostTask| t.owner != owner;
    let mut kept: Vec<HostTask> = Vec::new();
    let mut i: usize = 0;
    while i < tasks.len()
        invariant
            0 <= i <= tasks.len(),
            keep == |t: HostTask| t.owner != owner,
            kept@ == tasks@.take(i as int).filter(keep),
        decreases tasks.len() - i,
    {
        let t = tasks[i];
        assert(tasks@.take(i as int + 1) =~= tasks@.take(i as int).push(t));
        if t.owner != owner {
            kept.push(t);
        }
        i += 1;
    }
    assert(tasks@.take(i as int) =~= tasks@);
    kept
}

impl EventLoop {
    /// The loop of a new isolate: nothing scheduled, between two ticks.
    pub fn new() -> (r: EventLoop)
        ensures
            r@ == LoopModel::initial(),
            r@.wf(),
    {
        EventLoop {
            timers: TimerQueue::new(),
            pending: Vec::new(),
            completed: Vec::new(),
            next_task: 1,
            dirty: false,
            stage: Stage::Idle,
        }
    }

    /// Whether a timer can still be armed and a host task started.
    pub fn has_room(&self) -> (r: bool)
        ensures
            r == (self@.timers.next_id < u64::MAX && self@.next_task < u64::MAX),
    {
        self.timers.has_room() && self.next_task < u64::MAX
    }

    /// Records that the script ran outside a step of the loop, as when the
    /// handler is called: microtasks may wait.
    pub fn script_ran(&mut self)
        ensures
            final(self)@ == (LoopModel { dirty: true, ..old(self)@ }),
    {
        self.dirty = true;
    }

    /// `setTimeout` at `now`; see `TimerQueue::set_timeout`.
    pub fn set_timeout(
        &mut self,
        now: u64,
        delay: i64,
        callback: u64,
        frame: FrameId,
        owner: u64,
    ) -> (id: u64)
        requires
            old(self)@.wf(),
            old(self)@.timers.next_id < u64::MAX,
            now <= MAX_CLOCK,
        ensures
            final(self)@ == (LoopModel {
                timers: old(self)@.timers.with_timeout(now, delay, callback, frame, owner),
                ..old(self)@
            }),
            final(self)@.wf(),
            id == old(self)@.timers.next_id,
    {
        self.timers.set_timeout(now, delay, callback, frame, owner)
    }

    /// `setInterval` at `now`; see `TimerQueue::set_interval`.
    pub fn set_interval(
        &mut self,
        now: u64,
        delay: i64,
        callback: u64,
        frame: FrameId,
        owner: u64,
    ) -> (id: u64)
        requires
            old(self)@.wf(),
            old(self)@.timers.next_id < u64::MAX,
            now <= MAX_CLOCK,
        ensures
            final(self)@ == (LoopModel {
                timers: old(self)@.timers.with_interval(now, delay, callback, frame, owner),
                ..old(self)@
            }),
            final(self)@.wf(),
            id == old(self)@.timers.next_id,
    {
        self.timers.set_interval(now, delay, callback, frame, owner)
    }

    /// `clearTimeout` and `clearInterval`; see `TimerQueue::clear`.
    pub fn clear_timer(&mut self, id: u64)
        requires
            old(self)@.wf(),
        ensures
            final(self)@ == (LoopModel { timers: old(self)@.timers.cleared(id), ..old(self)@ }),
            final(self)@.wf(),
    {
        self.timers.clear(id);
    }

    /// Starts a host task whose completion resolves `resolver`. Returns
    /// the number of the task.
    pub fn start_task(&mut self, resolver: u64, frame: FrameId, owner: u64) -> (id: u64)
        requires
            old(self)@.next_task < u64::MAX,
        ensures
            final(self)@ == old(self)@.with_task(resolver, frame, owner),
            id == old(self)@.next_task,
            old(self)@.wf() ==> final(self)@.wf(),
    {
        let id = self.next_task;
        self.pending.push(HostTask { id, resolver, frame, owner });
        self.next_task = id + 1;
        id
    }

    /// Records that the host task `id` has completed. A number that names
    /// no task under way changes nothing.
    pub fn complete_task(&mut self, id: u64)
        ensures
            final(self)@ == old(self)@.completing(id),
            old(self)@.wf() ==> final(self)@.wf(),
    {
        let mut moved = tasks_with(&self.pending, id);
        let kept = tasks_without(&self.pending, id);
        self.completed.append(&mut moved);
        self.pending = kept;
    }

    /// Drops the timers and host tasks of request `owner`, as when the
    /// request has run out of its budget.
    pub fn discard(&mut self, owner: u64)
        requires
            old(self)@.wf(),
        ensures
            final(self)@ == old(self)@.discarded(owner),
            final(self)@.wf(),
    {
        self.timers.discard(owner);
        let kept = tasks_of_others(&self.pending, owner);
        let done = tasks_of_others(&self.completed, owner);
        self.pending = kept;
        self.completed = done;
    }

    /// The earliest time at which an armed timer is due, for the driver to
    /// sleep until then.
    pub fn next_wake(&self) -> (r: Option<u64>)
        ensures
            r is None <==> self@.timers.timers.len() == 0,
            r matches Some(due) ==> self@.timers.earliest(due),
    {
        self.timers.next_due()
    }

    /// Whether nothing is scheduled.
    pub fn is_quiescent(&self) -> (r: bool)
        ensures
            r == self@.quiescent(),
    {
        !self.dirty && self.pending.len() == 0 && self.completed.len() == 0 && self.timers.len()
            == 0
    }

    /// Hands out the next step at `now` and moves on: first the draining of
    /// microtasks where the script ran since the last draining, then the
    /// completed host tasks in the order of their completion, then the due
    /// timers in the order of `TimerQueue::pop_due`, then the end of the
    /// tick.
    pub fn advance(&mut self, now: u64) -> (step: Step)
        requires
            old(self)@.wf(),
            now <= MAX_CLOCK,
        ensures
            step == old(self)@.step_at(now),
            final(self)@ == old(self)@.advanced(now),
            final(self)@.wf(),
    {
        let resolving = match self.stage {
            Stage::Idle => {
                self.timers.begin_tick();
                self.stage = Stage::Tasks;
                true
            },
            Stage::Tasks => true,
            Stage::Timers => false,
        };
        if self.dirty {
            self.dirty = false;
            return Step::Drain;
        }
        if resolving && self.completed.len() > 0 {
            let task = self.completed.remove(0);
            self.dirty = true;
            assert(self.completed@ =~= old(self).completed@.drop_first());
            return Step::Resolve(task);
        }
        match self.timers.pop_due(now) {
            Some(timer) => {
                self.stage = Stage::Timers;
                self.dirty = true;
                Step::Fire(timer)
            },
            None => {
                self.stage = Stage::Idle;
                Step::Rest
            },
        }
    }
}

/// Every task was started under one of the first `count` frames, or under
/// the empty frame.
pub open spec fn tasks_within(tasks: Seq<HostTask>, count: nat) -> bool {
    forall|i: int| 0 <= i < tasks.len() ==> (#[trigger] tasks[i]).frame <= count
}

impl LoopModel {
    /// Every timer and every host task has a frame among the first `count`.
    pub open spec fn frames_within(self, count: nat) -> bool {
        &&& frames_within(self.timers, count)
        &&& tasks_within(self.pending, count)
        &&& tasks_within(self.completed, count)
    }
}

/// Dropping tasks leaves the frames of the others as they were.
pub proof fn lemma_filter_keeps_tasks_within(
    tasks: Seq<HostTask>,
    keep: spec_fn(HostTask) -> bool,
    count: nat,
)
    requires
        tasks_within(tasks, count),
    ensures
        tasks_within(tasks.filter(keep), count),
{
    let kept = tasks.filter(keep);
    assert forall|i: int| 0 <= i < kept.len() implies (#[trigger] kept[i]).frame <= count by {
        assert(kept.contains(kept[i]));
        tasks.lemma_filter_contains_rev(keep, kept[i]);
        let j = choose|j: int| 0 <= j < tasks.len() && tasks[j] == kept[i];
        assert(tasks[j].frame <= count);
    }
}

/// A step of the loop keeps the frames of the timers and tasks, and what it
/// hands out has one of them.
pub proof fn lemma_advance_keeps_frames(m: LoopModel, now: u64, count: nat)
    requires
        m.frames_within(count),
    ensures
        m.advanced(now).frames_within(count),
        m.step_at(now) matches Step::Fire(timer) ==> timer.frame <= count,
        m.step_at(now) matches Step::Resolve(task) ==> task.frame <= count,
{
    let ticked = m.timers_in_tick();
    if m.stage == Stage::Idle {
        lemma_step_keeps_frames(m.timers, TimerOp::BeginTick, count);
    }
    lemma_step_keeps_frames(ticked, TimerOp::Pop { now }, count);
    if m.completed.len() > 0 {
        assert(m.completed[0].frame <= count);
        let rest = m.completed.drop_first();
        assert forall|i: int| 0 <= i < rest.len() implies (#[trigger] rest[i]).frame <= count by {
            assert(rest[i] == m.completed[i + 1]);
        }
    }
}

/// Arming a timer and starting a task under a known frame, clearing,
/// completing and discarding keep the frames of the timers and tasks.
pub proof fn lemma_changes_keep_frames(m: LoopModel, count: nat)
    requires
        m.frames_within(count),
    ensures
        forall|now: u64, delay: i64, callback: u64, frame: FrameId, owner: u64|
            frame <= count ==> (LoopModel {
                timers: #[trigger] m.timers.with_timeout(now, delay, callback, frame, owner),
                ..m
            }).frames_within(count),
        forall|now: u64, delay: i64, callback: u64, frame: FrameId, owner: u64|
            frame <= count ==> (LoopModel {
                timers: #[trigger] m.timers.with_interval(now, delay, callback, frame, owner),
                ..m
            }).frames_within(count),
        forall|id: u64|
            (LoopModel { timers: #[trigger] m.timers.cleared(id), ..m }).frames_within(count),
        forall|resolver: u64, frame: FrameId, owner: u64|
            frame <= count ==> (#[trigger] m.with_task(resolver, frame, owner)).frames_within(count),
        forall|id: u64| (#[trigger] m.completing(id)).frames_within(count),
        forall|owner: u64| (#[trigger] m.discarded(owner)).frames_within(count),
{
    assert forall|now: u64, delay: i64, callback: u64, frame: FrameId, owner: u64|
        frame <= count implies (LoopModel {
            timers: #[trigger] m.timers.with_timeout(now, delay, callback, frame, owner),
            ..m
        }).frames_within(count) by {
        lemma_step_keeps_frames(
            m.timers,
            TimerOp::SetTimeout { now, delay, callback, frame, owner },
            count,
        );
    }
    assert forall|now: u64, delay: i64, callback: u64, frame: FrameId, owner: u64|
        frame <= count implies (LoopModel {
            timers: #[trigger] m.timers.with_interval(now, delay, callback, frame, owner),
            ..m
        }).frames_within(count) by {
        lemma_step_keeps_frames(
            m.timers,
            TimerOp::SetInterval { now, delay, callback, frame, owner },
            count,
        );
    }
    assert forall|id: u64|
        (LoopModel { timers: #[trigger] m.timers.cleared(id), ..m }).frames_within(count) by {
        lemma_step_keeps_frames(m.timers, TimerOp::Clear { id }, count);
    }
    assert forall|resolver: u64, frame: FrameId, owner: u64| frame <= count implies (
    #[trigger] m.with_task(resolver, frame, owner)).frames_within(count) by {
        let after = m.with_task(resolver, frame, owner).pending;
        assert forall|i: int| 0 <= i < after.len() implies (#[trigger] after[i]).frame
            <= count by {
            if i < m.pending.len() {
                assert(after[i] == m.pending[i]);
            }
        }
    }
    assert forall|id: u64| (#[trigger] m.completing(id)).frames_within(count) by {
        lemma_filter_keeps_tasks_within(m.pending, |t: HostTask| t.id != id, count);
        lemma_filter_keeps_tasks_within(m.pending, |t: HostTask| t.id == id, count);
        let moved = m.pending.filter(|t: HostTask| t.id == id);
        let after = m.completing(id).completed;
        assert forall|i: int| 0 <= i < after.len() implies (#[trigger] after[i]).frame
            <= count by {
            if i < m.completed.len() {
                assert(after[i] == m.completed[i]);
            } else {
                assert(after[i] == moved[i - m.completed.len()]);
            }
        }
    }
    assert forall|owner: u64| (#[trigger] m.discarded(owner)).frames_within(count) by {
        lemma_step_keeps_frames(m.timers, TimerOp::Discard { owner }, count);
        lemma_filter_keeps_tasks_within(m.pending, |t: HostTask| t.owner != owner, count);
        lemma_filter_keeps_tasks_within(m.completed, |t: HostTask| t.owner != owner, count);
    }
}

/// No callback into the script is handed out while microtasks may wait:
/// the step before a resolution or a firing is the draining.
pub proof fn law_microtasks_drain_first(m: LoopModel, now: u64)
    ensures
        m.dirty ==> m.step_at(now) == Step::Drain,
        m.step_at(now) is Resolve || m.step_at(now) is Fire ==> !m.dirty && m.advanced(now).dirty,
        m.step_at(now) is Drain ==> !m.advanced(now).dirty,
{
}

/// Within a tick the host tasks come before the timers: once a timer has
/// fired, no host task is resolved until the tick is over.
pub proof fn law_tasks_before_timers(m: LoopModel, now: u64)
    ensures
        m.step_at(now) is Resolve ==> m.stage != Stage::Timers && m.advanced(now).stage
            == Stage::Tasks,
        m.step_at(now) is Fire ==> m.advanced(now).stage == Stage::Timers,
        m.stage == Stage::Timers && m.step_at(now) !is Rest ==> m.advanced(now).stage
            == Stage::Timers,
        m.step_at(now) is Rest <==> m.advanced(now).stage == Stage::Idle,
{
}

/// A host task is resolved only after it has completed, and those that
/// completed first are resolved first.
pub proof fn law_tasks_resolve_in_order(m: LoopModel, now: u64)
    ensures
        m.step_at(now) matches Step::Resolve(task) ==> m.completed.len() > 0 && task
            == m.completed[0] && m.advanced(now).completed == m.completed.drop_first(),
{
}

} // verus!

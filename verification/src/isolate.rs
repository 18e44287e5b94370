//! One isolate: a script's lifecycle, its event loop and its async
//! contexts, moved together.
//!
//! The isolate does not run the script. The driver does: it calls the
//! handler and the callbacks that `next_action` hands out, and it reports
//! here what the script asked for (a timer, a host task, a `run` on a
//! context) and what came of the run.

use vstd::prelude::*;
use crate::context::{ContextModel, ContextTracker, FrameId};
use crate::event_loop::{
    lemma_advance_keeps_frames, lemma_changes_keep_frames, EventLoop, HostTask, LoopModel, Step,
};
use crate::http::RunResult;
use crate::lifecycle::{sent_of, Active, Event, Lifecycle, LifecycleModel, Outgoing, Phase};
use crate::logger::Level;
use crate::options::IsolateOptions;
use crate::timers::{Timer, MAX_CLOCK, MAX_PERIOD};

verus! {

/// What the driver does next.
#[derive(Debug, PartialEq, Eq)]
pub enum Action {
    /// Drain the engine's microtask queue until it is empty.
    Drain,
    /// Resolve the promise of this completed host task, then report that
    /// the callback has returned.
    Resolve(HostTask),
    /// Call the callback of this timer, then report that it has returned.
    Fire(Timer),
    /// A budget was spent: interrupt the engine, and send this on the
    /// request's reply channel.
    Send(Outgoing),
    /// Nothing is left to do in this tick. Wait for a request, for the
    /// completion of a host task, or until the clock reads this.
    Park(Option<u64>),
}

/// What one `console` call of the script gives: a record for the log
/// channel, which is not the reply channel of any request.
#[derive(Debug, PartialEq, Eq)]
pub struct LogRecord {
    pub level: Level,
    pub message: String,
    /// The metadata of the isolate that ran the script.
    pub metadata: Option<(String, String)>,
    /// The clock reading at the call.
    pub timestamp: u64,
}

/// One isolate.
#[derive(Debug)]
pub struct Isolate {
    options: IsolateOptions,
    lifecycle: Lifecycle,
    event_loop: EventLoop,
    contexts: ContextTracker,
}

impl Isolate {
    /// The options that the isolate was made with.
    pub closed spec fn settings(&self) -> IsolateOptions {
        self.options
    }

    /// The lifecycle of the isolate and of its requests.
    pub closed spec fn life(&self) -> LifecycleModel {
        self.lifecycle@
    }

    /// The timers, the host tasks and the tick.
    pub closed spec fn schedule(&self) -> LoopModel {
        self.event_loop@
    }

    /// The async contexts.
    pub closed spec fn contexts(&self) -> ContextTracker {
        self.contexts
    }

    /// The parts are well formed, and every timer and host task was
    /// registered under a frame that the contexts know.
    pub closed spec fn wf(&self) -> bool {
        &&& self.lifecycle@.wf()
        &&& self.lifecycle@.timeout == self.options.timeout_ms
        &&& self.options.startup_timeout_ms <= MAX_PERIOD
        &&& self.event_loop@.wf()
        &&& self.contexts.wf()
        &&& self.event_loop@.frames_within(self.contexts.frame_count())
    }

    /// The request that owns what the script registers now: the current
    /// one, or 0 where none runs.
    pub open spec fn owner(&self) -> u64 {
        match self.life().current {
            Some(active) => active.id,
            None => 0,
        }
    }

    /// A new isolate for `options`: not evaluated, nothing scheduled, the
    /// empty frame active.
    pub fn new(options: IsolateOptions) -> (r: Isolate)
        requires
            options.timeout_ms <= MAX_PERIOD,
            options.startup_timeout_ms <= MAX_PERIOD,
        ensures
            r.wf(),
            r.settings() == options,
            r.life() == LifecycleModel::initial(options.timeout_ms),
            r.schedule() == LoopModel::initial(),
            r.contexts()@ == ContextModel::initial(),
    {
        let lifecycle = Lifecycle::new(options.timeout_ms);
        Isolate { options, lifecycle, event_loop: EventLoop::new(), contexts: ContextTracker::new() }
    }

    /// The options that the isolate was made with.
    pub fn options(&self) -> (r: &IsolateOptions)
        ensures
            *r == self.settings(),
    {
        &self.options
    }

    /// The clock reading after which the budget for evaluating the script
    /// is spent, where evaluating started at `started`.
    pub fn startup_deadline(&self, started: u64) -> (r: u64)
        requires
            self.wf(),
            started <= MAX_CLOCK,
        ensures
            r == started + self.settings().startup_timeout_ms,
    {
        started + self.options.startup_timeout_ms
    }

    /// The record for a `console` call of the script at `now`: level and
    /// message as given, tagged with the metadata of this isolate.
    pub fn console(&self, level: Level, message: String, now: u64) -> (r: LogRecord)
        ensures
            r.level == level,
            r.message == message,
            r.metadata == self.settings().metadata,
            r.timestamp == now,
    {
        let metadata = match &self.options.metadata {
            Some(pair) => Some((pair.0.clone(), pair.1.clone())),
            None => None,
        };
        LogRecord { level, message, metadata, timestamp: now }
    }

    /// Where the isolate stands.
    pub fn phase(&self) -> (r: Phase)
        ensures
            r == self.life().phase,
    {
        self.lifecycle.phase()
    }

    /// The request that the isolate runs, if it runs one.
    pub fn current(&self) -> (r: Option<Active>)
        ensures
            r == self.life().current,
    {
        self.lifecycle.current()
    }

    /// Whether a request that is offered now is run.
    pub fn takes_requests(&self) -> (r: bool)
        ensures
            r == self.life().takes_requests(),
    {
        self.lifecycle.takes_requests()
    }

    /// Whether a request that is offered now is failed at once.
    pub fn fails_requests(&self) -> (r: bool)
        ensures
            r == self.life().fails_requests(),
    {
        self.lifecycle.fails_requests()
    }

    /// Whether a timer can still be armed and a host task started.
    pub fn has_room(&self) -> (r: bool)
        ensures
            r == (self.schedule().timers.next_id < u64::MAX && self.schedule().next_task
                < u64::MAX),
    {
        self.event_loop.has_room()
    }

    /// How many `run` calls and callbacks are under way.
    pub fn depth(&self) -> (n: usize)
        ensures
            n == self.contexts()@.saved.len(),
    {
        self.contexts.depth()
    }

    /// Records how evaluating the script ended; see `Lifecycle::evaluated`.
    /// Evaluating runs the script, so microtasks may wait.
    pub fn evaluated(&mut self, outcome: Result<(), String>)
        requires
            old(self).wf(),
        ensures
            final(self).wf(),
            final(self).life() == old(self).life().step(
                Event::Evaluated(
                    match outcome {
                        Ok(_) => None,
                        Err(message) => Some(message@),
                    },
                ),
            ),
            final(self).schedule() == (LoopModel { dirty: true, ..old(self).schedule() }),
            final(self).contexts() == old(self).contexts(),
            final(self).settings() == old(self).settings(),
    {
        self.lifecycle.evaluated(outcome);
        self.event_loop.script_ran();
    }

    /// Offers a request that arrived at `arrival`; see `Lifecycle::accept`.
    /// Where the request is taken the driver calls the handler, so
    /// microtasks may wait.
    pub fn accept(&mut self, arrival: u64) -> (r: Option<Outgoing>)
        requires
            old(self).wf(),
            arrival <= MAX_CLOCK,
        ensures
            final(self).wf(),
            final(self).life() == old(self).life().step(Event::Accept(arrival)),
            sent_of(r) == old(self).life().sends(Event::Accept(arrival)),
            final(self).schedule() == (if old(self).life().takes_requests() {
                LoopModel { dirty: true, ..old(self).schedule() }
            } else {
                old(self).schedule()
            }),
            final(self).contexts() == old(self).contexts(),
            final(self).settings() == old(self).settings(),
    {
        let taken = self.lifecycle.takes_requests();
        let out = self.lifecycle.accept(arrival);
        if taken {
            self.event_loop.script_ran();
        }
        out
    }

    /// The handler's promise settled; see `Lifecycle::settle`. The timers
    /// and host tasks of the request stay: they may fire after its reply.
    pub fn settle(&mut self, result: RunResult) -> (r: Option<Outgoing>)
        requires
            old(self).wf(),
        ensures
            final(self).wf(),
            final(self).life() == old(self).life().step(Event::Settle(result@)),
            sent_of(r) == old(self).life().sends(Event::Settle(result@)),
            final(self).schedule() == old(self).schedule(),
            final(self).contexts() == old(self).contexts(),
            final(self).settings() == old(self).settings(),
    {
        self.lifecycle.settle(result)
    }

    /// The script produced bytes of a streamed body; see `Lifecycle::chunk`.
    pub fn chunk(&self, bytes: Vec<u8>) -> (r: Option<Outgoing>)
        requires
            self.wf(),
        ensures
            sent_of(r) == self.life().sends(Event::Chunk(bytes@)),
    {
        self.lifecycle.chunk(bytes)
    }

    /// The streamed body ended; see `Lifecycle::end_stream`.
    pub fn end_stream(&mut self, outcome: Result<(), String>) -> (r: Option<Outgoing>)
        requires
            old(self).wf(),
        ensures
            final(self).wf(),
            final(self).life() == old(self).life().step(
                Event::EndStream(
                    match outcome {
                        Ok(_) => None,
                        Err(message) => Some(message@),
                    },
                ),
            ),
            sent_of(r) == old(self).life().sends(
                Event::EndStream(
                    match outcome {
                        Ok(_) => None,
                        Err(message) => Some(message@),
                    },
                ),
            ),
            final(self).schedule() == old(self).schedule(),
            final(self).contexts() == old(self).contexts(),
            final(self).settings() == old(self).settings(),
    {
        self.lifecycle.end_stream(outcome)
    }

    /// The engine reported that the heap is near its limit.
    pub fn heap_limit_reached(&mut self)
        requires
            old(self).wf(),
        ensures
            final(self).wf(),
            final(self).life() == old(self).life().step(Event::HeapLimit),
            final(self).schedule() == old(self).schedule(),
            final(self).contexts() == old(self).contexts(),
            final(self).settings() == old(self).settings(),
    {
        self.lifecycle.heap_limit_reached();
    }

    /// The engine broke beyond repair; see `Lifecycle::poison`.
    pub fn poison(&mut self, message: String) -> (r: Option<Outgoing>)
        requires
            old(self).wf(),
        ensures
            final(self).wf(),
            final(self).life() == old(self).life().step(Event::Poison(message@)),
            sent_of(r) == old(self).life().sends(Event::Poison(message@)),
            final(self).schedule() == old(self).schedule(),
            final(self).contexts() == old(self).contexts(),
            final(self).settings() == old(self).settings(),
    {
        self.lifecycle.poison(message)
    }

    /// The isolate is torn down; see `Lifecycle::dispose`. What was
    /// scheduled goes with it.
    pub fn dispose(self) -> (r: Option<Outgoing>)
        requires
            self.wf(),
        ensures
            sent_of(r) == self.life().sends(Event::Dispose),
    {
        let mut lifecycle = self.lifecycle;
        lifecycle.dispose()
    }

    /// Replaces the isolate: it is torn down as by `dispose`, and its
    /// successor is made with the same options, for the script `source`
    /// where one is given and for the same script where none is. The
    /// successor is new: not evaluated, nothing scheduled.
    pub fn replace_with(self, source: Option<String>) -> (r: (Isolate, Option<Outgoing>))
        requires
            self.wf(),
        ensures
            r.0.wf(),
            r.0.settings() == match source {
                Some(text) => IsolateOptions { source: text, ..self.settings() },
                None => self.settings(),
            },
            r.0.life() == LifecycleModel::initial(self.settings().timeout_ms),
            r.0.schedule() == LoopModel::initial(),
            r.0.contexts()@ == ContextModel::initial(),
            sent_of(r.1) == self.life().sends(Event::Dispose),
    {
        let mut lifecycle = self.lifecycle;
        let timeout = lifecycle.timeout();
        let out = lifecycle.dispose();
        let options = match source {
            Some(text) => self.options.with_source(text),
            None => self.options,
        };
        let successor = Isolate {
            options,
            lifecycle: Lifecycle::new(timeout),
            event_loop: EventLoop::new(),
            contexts: ContextTracker::new(),
        };
        (successor, out)
    }

    /// `setTimeout(callback, delay)` at `now`. The timer remembers the
    /// frame that is active now and the request that runs now.
    pub fn set_timeout(&mut self, now: u64, delay: i64, callback: u64) -> (id: u64)
        requires
            old(self).wf(),
            old(self).schedule().timers.next_id < u64::MAX,
            now <= MAX_CLOCK,
        ensures
            final(self).wf(),
            id == old(self).schedule().timers.next_id,
            final(self).schedule() == (LoopModel {
                timers: old(self).schedule().timers.with_timeout(
                    now,
                    delay,
                    callback,
                    old(self).contexts().active_id(),
                    old(self).owner(),
                ),
                ..old(self).schedule()
            }),
            final(self).life() == old(self).life(),
            final(self).contexts() == old(self).contexts(),
            final(self).settings() == old(self).settings(),
    {
        let frame = self.contexts.capture();
        let owner = self.registrant();
        proof {
            lemma_changes_keep_frames(self.event_loop@, self.contexts.frame_count());
        }
        self.event_loop.set_timeout(now, delay, callback, frame, owner)
    }

    /// `setInterval(callback, delay)` at `now`. The timer remembers the
    /// frame that is active now and the request that runs now.
    pub fn set_interval(&mut self, now: u64, delay: i64, callback: u64) -> (id: u64)
        requires
            old(self).wf(),
            old(self).schedule().timers.next_id < u64::MAX,
            now <= MAX_CLOCK,
        ensures
            final(self).wf(),
            id == old(self).schedule().timers.next_id,
            final(self).schedule() == (LoopModel {
                timers: old(self).schedule().timers.with_interval(
                    now,
                    delay,
                    callback,
                    old(self).contexts().active_id(),
                    old(self).owner(),
                ),
                ..old(self).schedule()
            }),
            final(self).life() == old(self).life(),
            final(self).contexts() == old(self).contexts(),
            final(self).settings() == old(self).settings(),
    {
        let frame = self.contexts.capture();
        let owner = self.registrant();
        proof {
            lemma_changes_keep_frames(self.event_loop@, self.contexts.frame_count());
        }
        self.event_loop.set_interval(now, delay, callback, frame, owner)
    }

    /// `clearTimeout(id)` and `clearInterval(id)`.
    pub fn clear_timer(&mut self, id: u64)
        requires
            old(self).wf(),
        ensures
            final(self).wf(),
            final(self).schedule() == (LoopModel {
                timers: old(self).schedule().timers.cleared(id),
                ..old(self).schedule()
            }),
            final(self).life() == old(self).life(),
            final(self).contexts() == old(self).contexts(),
            final(self).settings() == old(self).settings(),
    {
        proof {
            lemma_changes_keep_frames(self.event_loop@, self.contexts.frame_count());
        }
        self.event_loop.clear_timer(id);
    }

    /// The script started a host-side operation whose completion resolves
    /// `resolver`. The task remembers the frame that is active now and the
    /// request that runs now. Returns the number of the task.
    pub fn start_task(&mut self, resolver: u64) -> (id: u64)
        requires
            old(self).wf(),
            old(self).schedule().next_task < u64::MAX,
        ensures
            final(self).wf(),
            id == old(self).schedule().next_task,
            final(self).schedule() == old(self).schedule().with_task(
                resolver,
                old(self).contexts().active_id(),
                old(self).owner(),
            ),
            final(self).life() == old(self).life(),
            final(self).contexts() == old(self).contexts(),
            final(self).settings() == old(self).settings(),
    {
        let frame = self.contexts.capture();
        let owner = self.registrant();
        proof {
            lemma_changes_keep_frames(self.event_loop@, self.contexts.frame_count());
        }
        self.event_loop.start_task(resolver, frame, owner)
    }

    /// The host task `id` has completed.
    pub fn complete_task(&mut self, id: u64)
        requires
            old(self).wf(),
        ensures
            final(self).wf(),
            final(self).schedule() == old(self).schedule().completing(id),
            final(self).life() == old(self).life(),
            final(self).contexts() == old(self).contexts(),
            final(self).settings() == old(self).settings(),
    {
        proof {
            lemma_changes_keep_frames(self.event_loop@, self.contexts.frame_count());
        }
        self.event_loop.complete_task(id);
    }

    /// The script entered `context.run(value, ..)`.
    pub fn enter_run(&mut self, context: u64, value: u64)
        requires
            old(self).wf(),
        ensures
            final(self).wf(),
            final(self).contexts()@ == old(self).contexts()@.entered(context, value),
            final(self).contexts().extends(&old(self).contexts()),
            final(self).schedule() == old(self).schedule(),
            final(self).life() == old(self).life(),
            final(self).settings() == old(self).settings(),
    {
        self.contexts.enter_run(context, value);
    }

    /// The innermost `run`, or the callback that `next_action` handed
    /// out, has returned or thrown.
    pub fn leave(&mut self)
        requires
            old(self).wf(),
            old(self).contexts()@.saved.len() > 0,
        ensures
            final(self).wf(),
            final(self).contexts()@ == old(self).contexts()@.left(),
            final(self).contexts().extends(&old(self).contexts()),
            final(self).schedule() == old(self).schedule(),
            final(self).life() == old(self).life(),
            final(self).settings() == old(self).settings(),
    {
        self.contexts.leave();
    }

    /// `context.get()` under the active frame.
    pub fn get(&self, context: u64) -> (r: Option<u64>)
        requires
            self.wf(),
        ensures
            r == self.contexts()@.lookup(context),
    {
        self.contexts.get(context)
    }

    /// What the driver does next at `now`. The steps of the event loop come
    /// in the order of `EventLoop::advance`; a callback is handed out with
    /// the frame active under which it was registered. At the end of the
    /// tick the budgets are checked: a request that has spent its budget is
    /// over, and its timers and host tasks are dropped.
    pub fn next_action(&mut self, now: u64) -> (r: Action)
        requires
            old(self).wf(),
            now <= MAX_CLOCK,
        ensures
            final(self).wf(),
            final(self).settings() == old(self).settings(),
            final(self).contexts().extends(&old(self).contexts()),
            match old(self).schedule().step_at(now) {
                Step::Drain => {
                    &&& r == Action::Drain
                    &&& final(self).schedule() == old(self).schedule().advanced(now)
                    &&& final(self).life() == old(self).life()
                    &&& final(self).contexts() == old(self).contexts()
                },
                Step::Resolve(task) => {
                    &&& r == Action::Resolve(task)
                    &&& final(self).schedule() == old(self).schedule().advanced(now)
                    &&& final(self).life() == old(self).life()
                    &&& final(self).contexts()@ == old(self).contexts()@.resumed(
                        old(self).contexts().frame(task.frame),
                    )
                },
                Step::Fire(timer) => {
                    &&& r == Action::Fire(timer)
                    &&& final(self).schedule() == old(self).schedule().advanced(now)
                    &&& final(self).life() == old(self).life()
                    &&& final(self).contexts()@ == old(self).contexts()@.resumed(
                        old(self).contexts().frame(timer.frame),
                    )
                },
                Step::Rest => {
                    &&& final(self).life() == old(self).life().step(Event::CheckQuota(now))
                    &&& final(self).contexts() == old(self).contexts()
                    &&& match old(self).life().sends(Event::CheckQuota(now)) {
                        Some(sent) => {
                            &&& r matches Action::Send(out) && out@ == sent
                            &&& final(self).schedule() == old(self).schedule().advanced(
                                now,
                            ).discarded(sent.request)
                        },
                        None => {
                            &&& r matches Action::Park(wake) && (wake is None
                                <==> final(self).schedule().timers.timers.len() == 0) && (
                            wake matches Some(due) ==> final(self).schedule().timers.earliest(due))
                            &&& final(self).schedule() == old(self).schedule().advanced(now)
                        },
                    }
                },
            },
    {
        proof {
            lemma_advance_keeps_frames(self.event_loop@, now, self.contexts.frame_count());
        }
        match self.event_loop.advance(now) {
            Step::Drain => Action::Drain,
            Step::Resolve(task) => {
                self.contexts.resume(task.frame);
                Action::Resolve(task)
            },
            Step::Fire(timer) => {
                self.contexts.resume(timer.frame);
                Action::Fire(timer)
            },
            Step::Rest => {
                match self.lifecycle.check_quota(now) {
                    Some(out) => {
                        proof {
                            lemma_changes_keep_frames(
                                self.event_loop@,
                                self.contexts.frame_count(),
                            );
                        }
                        self.event_loop.discard(out.request);
                        Action::Send(out)
                    },
                    None => Action::Park(self.event_loop.next_wake()),
                }
            },
        }
    }

    fn registrant(&self) -> (owner: u64)
        ensures
            owner == self.owner(),
    {
        match self.lifecycle.current() {
            Some(active) => active.id,
            None => 0,
        }
    }
}

/// A callback runs under the frame that was active when it was registered:
/// whatever the script has entered and left since, the frame that
/// `next_action` makes active for a timer has the bindings that were
/// active at the `setTimeout` that armed it.
pub proof fn law_callback_runs_under_its_frame(
    at_registration: ContextTracker,
    at_firing: ContextTracker,
    frame: FrameId,
)
    requires
        frame == at_registration.active_id(),
        at_registration.knows(frame),
        at_registration.frame(frame) == at_registration@.active,
        at_firing.extends(&at_registration),
    ensures
        at_firing.knows(frame),
        at_firing@.resumed(at_firing.frame(frame)).active == at_registration@.active,
{
}

} // verus!

//! The life of an isolate and of the requests it runs: from evaluation to
//! disposal, and for each request from its arrival to the end of its reply.
//!
//! The isolate runs one request at a time. Whatever ends a request (the
//! handler's answer, an exception, the wall-clock budget, the heap limit, a
//! broken engine, the isolate's replacement) sends on its reply channel what
//! completes the reply, and nothing is sent for it afterwards.

use vstd::prelude::*;
use vstd::string::StringExecFns;
use crate::http::{RunResult, RunResultModel};
use crate::reply::{Reply, ReplyModel, ReplyState};
use crate::timers::{MAX_CLOCK, MAX_PERIOD};

verus! {

/// Where an isolate stands.
#[derive(Clone, Copy, Debug, PartialEq, Eq, Structural)]
pub enum Phase {
    /// Made, and not evaluated yet.
    New,
    /// Evaluated; the handler is at hand and no request has come.
    Ready,
    /// Requests have been taken.
    Serving,
    /// The script did not evaluate, or the engine broke: every request fails.
    Poisoned,
    /// Torn down.
    Disposed,
}

/// The request that the isolate runs.
#[derive(Clone, Copy, Debug, PartialEq, Eq, Structural)]
pub struct Active {
    /// Its number; requests are numbered from 1 in the order they are taken.
    pub id: u64,
    /// The clock reading after which its budget is spent.
    pub deadline: u64,
    /// How far its reply has come.
    pub reply: ReplyState,
}

/// What is told when a run ends on its wall-clock budget.
pub open spec fn timed_out() -> Seq<char> {
    "Function execution timed out"@
}

/// What is told when a run ends on the heap limit.
pub open spec fn out_of_memory() -> Seq<char> {
    "Function execution reached memory limit"@
}

/// What is told to a request whose isolate was replaced under it.
pub open spec fn replaced() -> Seq<char> {
    "isolate replaced"@
}

/// What an isolate's lifecycle stands for.
pub struct LifecycleModel {
    pub phase: Phase,
    /// Why every request fails, where the isolate is poisoned.
    pub failure: Seq<char>,
    /// The wall-clock budget of a request in milliseconds.
    pub timeout: u64,
    /// The number of the next request.
    pub next_request: u64,
    pub current: Option<Active>,
    /// The heap came near its limit while the current request ran.
    pub heap_hit: bool,
}

/// Something that happens to an isolate.
pub enum Event {
    /// Evaluating the script ended: well, or with this message.
    Evaluated(Option<Seq<char>>),
    /// A request that arrived at this clock reading is offered.
    Accept(u64),
    /// The handler's promise settled with this result.
    Settle(RunResultModel),
    /// The script produced bytes of a streamed body.
    Chunk(Seq<u8>),
    /// The streamed body ended: well, or with this message.
    EndStream(Option<Seq<char>>),
    /// The engine reported that the heap is near its limit.
    HeapLimit,
    /// The budgets are checked at this clock reading.
    CheckQuota(u64),
    /// The engine broke beyond repair, with this message.
    Poison(Seq<char>),
    /// The isolate is torn down.
    Dispose,
}

/// An item for the reply channel of a request.
pub struct Sent {
    pub request: u64,
    pub item: ReplyModel,
}

impl LifecycleModel {
    /// A new isolate with this budget per request.
    pub open spec fn initial(timeout: u64) -> LifecycleModel {
        LifecycleModel {
            phase: Phase::New,
            failure: Seq::empty(),
            timeout,
            next_request: 1,
            current: None,
            heap_hit: false,
        }
    }

    /// Whether a request that is offered now is run.
    pub open spec fn takes_requests(self) -> bool {
        &&& self.phase == Phase::Ready || self.phase == Phase::Serving
        &&& self.current is None
        &&& self.next_request < u64::MAX
    }

    /// Whether a request that is offered now is failed at once.
    pub open spec fn fails_requests(self) -> bool {
        self.phase == Phase::Poisoned && self.current is None && self.next_request < u64::MAX
    }

    /// What ends the current request with the text `why`: an error result
    /// where nothing was sent yet, the stream's failure where its head was.
    pub open spec fn cut(self, why: Seq<char>) -> Option<Sent> {
        match self.current {
            Some(active) => match active.reply {
                ReplyState::Pending => Some(
                    Sent {
                        request: active.id,
                        item: ReplyModel::Result(RunResultModel::Error(why)),
                    },
                ),
                ReplyState::Streaming => Some(
                    Sent { request: active.id, item: ReplyModel::Failed(why) },
                ),
                ReplyState::Closed => None,
            },
            None => None,
        }
    }

    /// What ends the current request on a limit: the limit as the result
    /// where nothing was sent yet, the stream's failure where its head was.
    pub open spec fn limit(self, result: RunResultModel, why: Seq<char>) -> Option<Sent> {
        match self.current {
            Some(active) => match active.reply {
                ReplyState::Pending => Some(
                    Sent { request: active.id, item: ReplyModel::Result(result) },
                ),
                ReplyState::Streaming => Some(
                    Sent { request: active.id, item: ReplyModel::Failed(why) },
                ),
                ReplyState::Closed => None,
            },
            None => None,
        }
    }

    /// The isolate after `event`.
    pub open spec fn step(self, event: Event) -> LifecycleModel {
        match event {
            Event::Evaluated(outcome) => if self.phase == Phase::New {
                match outcome {
                    None => LifecycleModel { phase: Phase::Ready, ..self },
                    Some(message) => LifecycleModel {
                        phase: Phase::Poisoned,
                        failure: message,
                        ..self
                    },
                }
            } else {
                self
            },
            Event::Accept(arrival) => if self.takes_requests() {
                LifecycleModel {
                    phase: Phase::Serving,
                    next_request: (self.next_request + 1) as u64,
                    current: Some(
                        Active {
                            id: self.next_request,
                            deadline: (arrival + self.timeout) as u64,
                            reply: ReplyState::Pending,
                        },
                    ),
                    heap_hit: false,
                    ..self
                }
            } else if self.fails_requests() {
                LifecycleModel { next_request: (self.next_request + 1) as u64, ..self }
            } else {
                self
            },
            Event::Settle(result) => match self.current {
                Some(active) => if active.reply == ReplyState::Pending {
                    if result is Stream {
                        LifecycleModel {
                            current: Some(Active { reply: ReplyState::Streaming, ..active }),
                            ..self
                        }
                    } else {
                        LifecycleModel { current: None, heap_hit: false, ..self }
                    }
                } else {
                    self
                },
                None => self,
            },
            Event::Chunk(_) => self,
            Event::EndStream(_) => match self.current {
                Some(active) => if active.reply == ReplyState::Streaming {
                    LifecycleModel { current: None, heap_hit: false, ..self }
                } else {
                    self
                },
                None => self,
            },
            Event::HeapLimit => if self.current is Some {
                LifecycleModel { heap_hit: true, ..self }
            } else {
                self
            },
            Event::CheckQuota(now) => match self.current {
                Some(active) => if self.heap_hit || now > active.deadline {
                    LifecycleModel { current: None, heap_hit: false, ..self }
                } else {
                    self
                },
                None => self,
            },
            Event::Poison(message) => if self.phase == Phase::Disposed {
                self
            } else {
                LifecycleModel {
                    phase: Phase::Poisoned,
                    failure: message,
                    current: None,
                    heap_hit: false,
                    ..self
                }
            },
            Event::Dispose => LifecycleModel {
                phase: Phase::Disposed,
                current: None,
                heap_hit: false,
                ..self
            },
        }
    }

    /// What `event` sends, and on which request's reply channel.
    pub open spec fn sends(self, event: Event) -> Option<Sent> {
        match event {
            Event::Evaluated(_) => None,
            Event::Accept(_) => if !self.takes_requests() && self.fails_requests() {
                Some(
                    Sent {
                        request: self.next_request,
                        item: ReplyModel::Result(RunResultModel::Error(self.failure)),
                    },
                )
            } else {
                None
            },
            Event::Settle(result) => match self.current {
                Some(active) => if active.reply == ReplyState::Pending {
                    Some(Sent { request: active.id, item: ReplyModel::Result(result) })
                } else {
                    None
                },
                None => None,
            },
            Event::Chunk(bytes) => match self.current {
                Some(active) => if active.reply == ReplyState::Streaming {
                    Some(Sent { request: active.id, item: ReplyModel::Chunk(bytes) })
                } else {
                    None
                },
                None => None,
            },
            Event::EndStream(outcome) => match self.current {
                Some(active) => if active.reply == ReplyState::Streaming {
                    match outcome {
                        None => Some(Sent { request: active.id, item: ReplyModel::Done }),
                        Some(message) => Some(
                            Sent { request: active.id, item: ReplyModel::Failed(message) },
                        ),
                    }
                } else {
                    None
                },
                None => None,
            },
            Event::HeapLimit => None,
            Event::CheckQuota(now) => match self.current {
                Some(active) => if self.heap_hit {
                    self.limit(RunResultModel::MemoryLimit, out_of_memory())
                } else if now > active.deadline {
                    self.limit(RunResultModel::Timeout, timed_out())
                } else {
                    None
                },
                None => None,
            },
            Event::Poison(message) => if self.phase == Phase::Disposed {
                None
            } else {
                self.cut(message)
            },
            Event::Dispose => self.cut(replaced()),
        }
    }

    /// The isolate after a sequence of events.
    pub open spec fn run(self, events: Seq<Event>) -> LifecycleModel
        decreases events.len(),
    {
        if events.len() == 0 {
            self
        } else {
            self.run(events.drop_last()).step(events.last())
        }
    }

    /// What a sequence of events sends on the reply channel of `request`,
    /// in the order of sending.
    pub open spec fn sent_to(self, events: Seq<Event>, request: u64) -> Seq<ReplyModel>
        decreases events.len(),
    {
        if events.len() == 0 {
            Seq::empty()
        } else {
            let before = self.sent_to(events.drop_last(), request);
            match self.run(events.drop_last()).sends(events.last()) {
                Some(sent) => if sent.request == request {
                    before.push(sent.item)
                } else {
                    before
                },
                None => before,
            }
        }
    }

    /// The current request has no closed reply, and its number was handed out.
    pub open spec fn wf(self) -> bool {
        &&& self.next_request >= 1
        &&& self.timeout <= MAX_PERIOD
        &&& self.current matches Some(active) ==> {
            &&& 1 <= active.id < self.next_request
            &&& active.id + 1 == self.next_request
            &&& active.reply != ReplyState::Closed
            &&& self.phase == Phase::Serving
        }
        &&& self.heap_hit ==> self.current is Some
    }
}

/// An item together with the request it is for.
#[derive(Debug, PartialEq, Eq)]
pub struct Outgoing {
    pub request: u64,
    pub item: Reply,
}

impl View for Outgoing {
    type V = Sent;

    open spec fn view(&self) -> Sent {
        Sent { request: self.request, item: self.item@ }
    }
}

/// The model of what a call handed out.
pub open spec fn sent_of(out: Option<Outgoing>) -> Option<Sent> {
    match out {
        Some(o) => Some(o@),
        None => None,
    }
}

/// The lifecycle of one isolate.
#[derive(Debug)]
pub struct Lifecycle {
    phase: Phase,
    failure: String,
    timeout: u64,
    next_request: u64,
    current: Option<Active>,
    heap_hit: bool,
}

impl View for Lifecycle {
    type V = LifecycleModel;

    closed spec fn view(&self) -> LifecycleModel {
        LifecycleModel {
            phase: self.phase,
            failure: self.failure@,
            timeout: self.timeout,
            next_request: self.next_request,
            current: self.current,
            heap_hit: self.heap_hit,
        }
    }
}

impl Lifecycle {
    /// The lifecycle of a new isolate with `timeout` milliseconds per request.
    pub fn new(timeout: u64) -> (r: Lifecycle)
        requires
            timeout <= MAX_PERIOD,
        ensures
            r@ == LifecycleModel::initial(timeout),
            r@.wf(),
    {
        Lifecycle {
            phase: Phase::New,
            failure: String::new(),
            timeout,
            next_request: 1,
            current: None,
            heap_hit: false,
        }
    }

    /// The wall-clock budget of a request in milliseconds.
    pub fn timeout(&self) -> (r: u64)
        ensures
            r == self@.timeout,
    {
        self.timeout
    }

    /// Where the isolate stands.
    pub fn phase(&self) -> (r: Phase)
        ensures
            r == self@.phase,
    {
        self.phase
    }

    /// The request that the isolate runs, if it runs one.
    pub fn current(&self) -> (r: Option<Active>)
        ensures
            r == self@.current,
    {
        self.current
    }

    /// Whether a request that is offered now is run.
    pub fn takes_requests(&self) -> (r: bool)
        ensures
            r == self@.takes_requests(),
    {
        (self.phase == Phase::Ready || self.phase == Phase::Serving) && self.current.is_none()
            && self.next_request < u64::MAX
    }

    /// Whether a request that is offered now is failed at once.
    pub fn fails_requests(&self) -> (r: bool)
        ensures
            r == self@.fails_requests(),
    {
        self.phase == Phase::Poisoned && self.current.is_none() && self.next_request < u64::MAX
    }

    /// Records how evaluating the script ended. A new isolate becomes ready
    /// where it ended well, and poisoned with the message where it did not.
    pub fn evaluated(&mut self, outcome: Result<(), String>)
        requires
            old(self)@.wf(),
        ensures
            final(self)@ == old(self)@.step(
                Event::Evaluated(
                    match outcome {
                        Ok(_) => None,
                        Err(message) => Some(message@),
                    },
                ),
            ),
            final(self)@.wf(),
    {
        if self.phase == Phase::New {
            match outcome {
                Ok(_) => {
                    self.phase = Phase::Ready;
                },
                Err(message) => {
                    self.phase = Phase::Poisoned;
                    self.failure = message;
                },
            }
        }
    }

    /// Offers a request that arrived at `arrival`. An isolate that is ready
    /// and runs no request takes it, and its budget ends `timeout`
    /// milliseconds after its arrival: nothing is sent, and `current` tells
    /// its number. A poisoned isolate fails it at once with the message
    /// that poisoned it. Otherwise the request is not taken and may be
    /// offered again.
    pub fn accept(&mut self, arrival: u64) -> (r: Option<Outgoing>)
        requires
            old(self)@.wf(),
            arrival <= MAX_CLOCK,
        ensures
            final(self)@ == old(self)@.step(Event::Accept(arrival)),
            sent_of(r) == old(self)@.sends(Event::Accept(arrival)),
            final(self)@.wf(),
    {
        if self.takes_requests() {
            let id = self.next_request;
            self.phase = Phase::Serving;
            self.next_request = id + 1;
            self.current = Some(
                Active { id, deadline: arrival + self.timeout, reply: ReplyState::Pending },
            );
            self.heap_hit = false;
            None
        } else if self.fails_requests() {
            let id = self.next_request;
            self.next_request = id + 1;
            Some(
                Outgoing {
                    request: id,
                    item: Reply::Result(RunResult::Error(self.failure.clone())),
                },
            )
        } else {
            None
        }
    }

    /// The handler's promise settled. Where the current request has had no
    /// result yet, `result` is its result: a stream head opens its stream,
    /// anything else ends the request. A result that comes later is dropped.
    pub fn settle(&mut self, result: RunResult) -> (r: Option<Outgoing>)
        requires
            old(self)@.wf(),
        ensures
            final(self)@ == old(self)@.step(Event::Settle(result@)),
            sent_of(r) == old(self)@.sends(Event::Settle(result@)),
            final(self)@.wf(),
    {
        match self.current {
            Some(active) => {
                if active.reply == ReplyState::Pending {
                    match result {
                        RunResult::Stream(_) => {
                            self.current = Some(Active { reply: ReplyState::Streaming, ..active });
                        },
                        _ => {
                            self.current = None;
                            self.heap_hit = false;
                        },
                    }
                    Some(Outgoing { request: active.id, item: Reply::Result(result) })
                } else {
                    None
                }
            },
            None => None,
        }
    }

    /// The script produced bytes of a streamed body: they are sent where the
    /// current request streams, and dropped otherwise.
    pub fn chunk(&self, bytes: Vec<u8>) -> (r: Option<Outgoing>)
        requires
            self@.wf(),
        ensures
            sent_of(r) == self@.sends(Event::Chunk(bytes@)),
            self@.step(Event::Chunk(bytes@)) == self@,
    {
        match self.current {
            Some(active) => {
                if active.reply == ReplyState::Streaming {
                    Some(Outgoing { request: active.id, item: Reply::Chunk(bytes) })
                } else {
                    None
                }
            },
            None => None,
        }
    }

    /// The streamed body ended, well or with a message: the terminator is
    /// sent and the request is over.
    pub fn end_stream(&mut self, outcome: Result<(), String>) -> (r: Option<Outgoing>)
        requires
            old(self)@.wf(),
        ensures
            final(self)@ == old(self)@.step(
                Event::EndStream(
                    match outcome {
                        Ok(_) => None,
                        Err(message) => Some(message@),
                    },
                ),
            ),
            sent_of(r) == old(self)@.sends(
                Event::EndStream(
                    match outcome {
                        Ok(_) => None,
                        Err(message) => Some(message@),
                    },
                ),
            ),
            final(self)@.wf(),
    {
        match self.current {
            Some(active) => {
                if active.reply == ReplyState::Streaming {
                    self.current = None;
                    self.heap_hit = false;
                    match outcome {
                        Ok(_) => Some(Outgoing { request: active.id, item: Reply::Done }),
                        Err(message) => Some(
                            Outgoing { request: active.id, item: Reply::Failed(message) },
                        ),
                    }
                } else {
                    None
                }
            },
            None => None,
        }
    }

    /// The engine reported that the heap is near its limit.
    pub fn heap_limit_reached(&mut self)
        requires
            old(self)@.wf(),
        ensures
            final(self)@ == old(self)@.step(Event::HeapLimit),
            final(self)@.wf(),
    {
        if self.current.is_some() {
            self.heap_hit = true;
        }
    }

    /// Checks the budgets of the current request at `now`. Where the heap
    /// limit was hit, or `now` is past the deadline, the request is over:
    /// its result is `MemoryLimit` or `Timeout`, or, where its stream was
    /// open, the stream's failure. The isolate goes on serving.
    pub fn check_quota(&mut self, now: u64) -> (r: Option<Outgoing>)
        requires
            old(self)@.wf(),
        ensures
            final(self)@ == old(self)@.step(Event::CheckQuota(now)),
            sent_of(r) == old(self)@.sends(Event::CheckQuota(now)),
            final(self)@.wf(),
    {
        match self.current {
            Some(active) => {
                if self.heap_hit {
                    self.current = None;
                    self.heap_hit = false;
                    match active.reply {
                        ReplyState::Pending => Some(
                            Outgoing {
                                request: active.id,
                                item: Reply::Result(RunResult::MemoryLimit),
                            },
                        ),
                        _ => Some(
                            Outgoing {
                                request: active.id,
                                item: Reply::Failed(
                                    String::from_str("Function execution reached memory limit"),
                                ),
                            },
                        ),
                    }
                } else if now > active.deadline {
                    self.current = None;
                    match active.reply {
                        ReplyState::Pending => Some(
                            Outgoing { request: active.id, item: Reply::Result(RunResult::Timeout) },
                        ),
                        _ => Some(
                            Outgoing {
                                request: active.id,
                                item: Reply::Failed(
                                    String::from_str("Function execution timed out"),
                                ),
                            },
                        ),
                    }
                } else {
                    None
                }
            },
            None => None,
        }
    }

    /// The engine broke beyond repair. The current request fails with the
    /// message, and so does every request that is offered from now on.
    pub fn poison(&mut self, message: String) -> (r: Option<Outgoing>)
        requires
            old(self)@.wf(),
        ensures
            final(self)@ == old(self)@.step(Event::Poison(message@)),
            sent_of(r) == old(self)@.sends(Event::Poison(message@)),
            final(self)@.wf(),
    {
        if self.phase == Phase::Disposed {
            return None;
        }
        let out = self.cut_with(message.clone());
        self.phase = Phase::Poisoned;
        self.failure = message;
        self.current = None;
        self.heap_hit = false;
        out
    }

    /// The isolate is torn down. The current request is told that its
    /// isolate was replaced.
    pub fn dispose(&mut self) -> (r: Option<Outgoing>)
        requires
            old(self)@.wf(),
        ensures
            final(self)@ == old(self)@.step(Event::Dispose),
            sent_of(r) == old(self)@.sends(Event::Dispose),
            final(self)@.wf(),
    {
        let out = self.cut_with(String::from_str("isolate replaced"));
        self.phase = Phase::Disposed;
        self.current = None;
        self.heap_hit = false;
        out
    }

    fn cut_with(&self, why: String) -> (r: Option<Outgoing>)
        requires
            self@.wf(),
        ensures
            sent_of(r) == self@.cut(why@),
    {
        match self.current {
            Some(active) => match active.reply {
                ReplyState::Pending => Some(
                    Outgoing { request: active.id, item: Reply::Result(RunResult::Error(why)) },
                ),
                ReplyState::Streaming => Some(
                    Outgoing { request: active.id, item: Reply::Failed(why) },
                ),
                ReplyState::Closed => None,
            },
            None => None,
        }
    }
}

} // verus!

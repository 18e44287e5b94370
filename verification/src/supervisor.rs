//! The supervisor of one isolate: the requests that wait for it, and its
//! replacement when the script changes.
//!
//! Requests are handed to the isolate in the order in which they came.
//! A new script replaces the isolate: the request that it runs is told so,
//! and the requests that wait are handed to its successor.

use vstd::prelude::*;
use vstd::utf8::{encode_utf8, valid_utf8};
use crate::context::ContextModel;
use crate::event_loop::LoopModel;
use crate::isolate::Isolate;
use crate::lifecycle::{sent_of, Event, LifecycleModel, Outgoing};
use crate::options::IsolateOptions;
use crate::server::text_of;
use crate::timers::MAX_CLOCK;

verus! {

/// A request that waits for the isolate.
#[derive(Clone, Copy, Debug, PartialEq, Eq, Structural)]
pub struct Ticket {
    /// The caller's name for the request and its reply channel.
    pub token: u64,
    /// The clock reading at which the front-end accepted it.
    pub arrival: u64,
}

/// What became of the request at the head of the queue.
#[derive(Debug, PartialEq, Eq)]
pub struct Delivery {
    /// The request that left the queue.
    pub ticket: Ticket,
    /// The generation of the script that it was handed to.
    pub generation: u64,
    /// What the isolate answered at once, where it did not run the request.
    pub refused: Option<Outgoing>,
}

/// What a replacement gave.
#[derive(Debug)]
pub struct Swap {
    /// The isolate to go on with: the successor, or the old one where the
    /// new script was not UTF-8.
    pub isolate: Isolate,
    /// What the request that the old isolate ran is told.
    pub cancelled: Option<Outgoing>,
    /// Whether the isolate was replaced.
    pub replaced: bool,
}

/// What a supervisor stands for.
pub struct SupervisorModel {
    /// How many scripts were put in place, the first one included.
    pub generation: u64,
    /// The requests that wait, the oldest first.
    pub waiting: Seq<Ticket>,
}

impl SupervisorModel {
    /// Every request that waits arrived at a time that the clock can read.
    pub open spec fn wf(self) -> bool {
        forall|i: int| 0 <= i < self.waiting.len() ==> (#[trigger] self.waiting[i]).arrival
            <= MAX_CLOCK
    }
}

/// The supervisor of one isolate.
#[derive(Debug)]
pub struct Supervisor {
    generation: u64,
    waiting: Vec<Ticket>,
}

impl View for Supervisor {
    type V = SupervisorModel;

    closed spec fn view(&self) -> SupervisorModel {
        SupervisorModel { generation: self.generation, waiting: self.waiting@ }
    }
}

impl Supervisor {
    /// A supervisor for the first script, with no request waiting.
    pub fn new() -> (r: Supervisor)
        ensures
            r@ == (SupervisorModel { generation: 1, waiting: Seq::empty() }),
            r@.wf(),
    {
        Supervisor { generation: 1, waiting: Vec::new() }
    }

    /// The generation of the script in place.
    pub fn generation(&self) -> (r: u64)
        ensures
            r == self@.generation,
    {
        self.generation
    }

    /// How many requests wait.
    pub fn waiting(&self) -> (n: usize)
        ensures
            n == self@.waiting.len(),
    {
        self.waiting.len()
    }

    /// Puts a request at the end of the queue.
    pub fn submit(&mut self, ticket: Ticket)
        requires
            old(self)@.wf(),
            ticket.arrival <= MAX_CLOCK,
        ensures
            final(self)@ == (SupervisorModel {
                waiting: old(self)@.waiting.push(ticket),
                ..old(self)@
            }),
            final(self)@.wf(),
    {
        self.waiting.push(ticket);
        proof {
            assert forall|i: int| 0 <= i < self@.waiting.len() implies (
            #[trigger] self@.waiting[i]).arrival <= MAX_CLOCK by {
                if i < old(self)@.waiting.len() {
                    assert(self@.waiting[i] == old(self)@.waiting[i]);
                }
            }
        }
    }

    /// Hands the oldest waiting request to the isolate, where the isolate
    /// runs it or fails it at once. Where no request waits, or the isolate
    /// is busy or not ready, nothing changes.
    pub fn deliver(&mut self, isolate: &mut Isolate) -> (r: Option<Delivery>)
        requires
            old(isolate).wf(),
            old(self)@.wf(),
        ensures
            final(isolate).wf(),
            final(self)@.wf(),
            final(isolate).settings() == old(isolate).settings(),
            final(isolate).contexts() == old(isolate).contexts(),
            final(self)@.generation == old(self)@.generation,
            if old(self)@.waiting.len() > 0 && (old(isolate).life().takes_requests() || old(
                isolate,
            ).life().fails_requests()) {
                let ticket = old(self)@.waiting[0];
                &&& final(self)@.waiting == old(self)@.waiting.drop_first()
                &&& final(isolate).life() == old(isolate).life().step(Event::Accept(ticket.arrival))
                &&& final(isolate).schedule() == (if old(isolate).life().takes_requests() {
                    LoopModel { dirty: true, ..old(isolate).schedule() }
                } else {
                    old(isolate).schedule()
                })
                &&& r matches Some(delivery) && delivery.ticket == ticket && delivery.generation
                    == old(self)@.generation && sent_of(delivery.refused) == old(
                    isolate,
                ).life().sends(Event::Accept(ticket.arrival))
            } else {
                &&& final(self)@ == old(self)@
                &&& final(isolate).life() == old(isolate).life()
                &&& final(isolate).schedule() == old(isolate).schedule()
                &&& r is None
            },
    {
        if self.waiting.len() == 0 {
            return None;
        }
        if !(isolate.takes_requests() || isolate.fails_requests()) {
            return None;
        }
        let ticket = self.waiting.remove(0);
        assert(self.waiting@ =~= old(self).waiting@.drop_first());
        assert(ticket == old(self)@.waiting[0]);
        let refused = isolate.accept(ticket.arrival);
        Some(Delivery { ticket, generation: self.generation, refused })
    }

    /// Puts a new script in place, or, where `index` is `None`, starts the
    /// same script afresh. The isolate is replaced as by
    /// `Isolate::replace_with`, the generation goes up by one, and the
    /// requests that wait stay in their order. A script that is not UTF-8
    /// replaces nothing.
    pub fn swap(&mut self, isolate: Isolate, index: Option<Vec<u8>>) -> (r: Swap)
        requires
            isolate.wf(),
            old(self)@.generation < u64::MAX,
        ensures
            r.isolate.wf(),
            final(self)@.waiting == old(self)@.waiting,
            old(self)@.wf() ==> final(self)@.wf(),
            r.replaced <==> (index matches Some(bytes) ==> valid_utf8(bytes@)),
            r.replaced ==> {
                &&& final(self)@.generation == old(self)@.generation + 1
                &&& sent_of(r.cancelled) == isolate.life().sends(Event::Dispose)
                &&& r.isolate.life() == LifecycleModel::initial(isolate.settings().timeout_ms)
                &&& r.isolate.schedule() == LoopModel::initial()
                &&& r.isolate.contexts()@ == ContextModel::initial()
                &&& match index {
                    Some(bytes) => exists|text: String|
                        encode_utf8(text@) == bytes@ && r.isolate.settings() == (IsolateOptions {
                            source: text,
                            ..isolate.settings()
                        }),
                    None => r.isolate.settings() == isolate.settings(),
                }
            },
            !r.replaced ==> {
                &&& final(self)@ == old(self)@
                &&& r.isolate == isolate
                &&& r.cancelled is None
            },
    {
        let source = match index {
            Some(bytes) => match text_of(bytes) {
                Some(text) => Some(text),
                None => {
                    return Swap { isolate, cancelled: None, replaced: false };
                },
            },
            None => None,
        };
        let (successor, cancelled) = isolate.replace_with(source);
        self.generation = self.generation + 1;
        proof {
            assert forall|i: int| old(self)@.wf() && 0 <= i < self@.waiting.len() implies (
            #[trigger] self@.waiting[i]).arrival <= MAX_CLOCK by {
                assert(self@.waiting[i] == old(self)@.waiting[i]);
            }
        }
        Swap { isolate: successor, cancelled, replaced: true }
    }
}

/// An operation on the queue of a supervisor.
pub enum QueueOp {
    /// A request came.
    Submit(Ticket),
    /// The isolate took the oldest waiting request, where one waited.
    Deliver,
    /// The isolate was replaced.
    Swap,
}

/// The queue after a sequence of operations on an empty one.
pub open spec fn waiting_after(ops: Seq<QueueOp>) -> Seq<Ticket>
    decreases ops.len(),
{
    if ops.len() == 0 {
        Seq::empty()
    } else {
        let before = waiting_after(ops.drop_last());
        match ops.last() {
            QueueOp::Submit(ticket) => before.push(ticket),
            QueueOp::Deliver => if before.len() > 0 {
                before.drop_first()
            } else {
                before
            },
            QueueOp::Swap => before,
        }
    }
}

/// The requests that a sequence of operations submitted, in their order.
pub open spec fn submitted(ops: Seq<QueueOp>) -> Seq<Ticket>
    decreases ops.len(),
{
    if ops.len() == 0 {
        Seq::empty()
    } else {
        let before = submitted(ops.drop_last());
        match ops.last() {
            QueueOp::Submit(ticket) => before.push(ticket),
            _ => before,
        }
    }
}

/// The requests that a sequence of operations handed to the isolate, in
/// their order.
pub open spec fn delivered(ops: Seq<QueueOp>) -> Seq<Ticket>
    decreases ops.len(),
{
    if ops.len() == 0 {
        Seq::empty()
    } else {
        let before = delivered(ops.drop_last());
        match ops.last() {
            QueueOp::Deliver => if waiting_after(ops.drop_last()).len() > 0 {
                before.push(waiting_after(ops.drop_last())[0])
            } else {
                before
            },
            _ => before,
        }
    }
}

/// Requests reach the isolate in the order in which they came, and none is
/// lost when the isolate is replaced: at any time the requests that were
/// delivered, followed by those that wait, are the requests that were
/// submitted.
pub proof fn law_requests_are_delivered_in_order(ops: Seq<QueueOp>)
    ensures
        delivered(ops) + waiting_after(ops) == submitted(ops),
    decreases ops.len(),
{
    if ops.len() > 0 {
        let front = ops.drop_last();
        law_requests_are_delivered_in_order(front);
        let waiting = waiting_after(front);
        match ops.last() {
            QueueOp::Submit(ticket) => {
                assert(delivered(front) + waiting.push(ticket) =~= (delivered(front)
                    + waiting).push(ticket));
            },
            QueueOp::Deliver => {
                if waiting.len() > 0 {
                    assert(delivered(front).push(waiting[0]) + waiting.drop_first() =~= delivered(
                        front,
                    ) + waiting);
                }
            },
            QueueOp::Swap => {},
        }
    } else {
        assert(delivered(ops) + waiting_after(ops) =~= submitted(ops));
    }
}

} // verus!

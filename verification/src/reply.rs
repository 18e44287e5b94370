//! What travels on the reply channel of one request, and in which order: a
//! single result, or the head of a stream, its chunks and one terminator.

use vstd::prelude::*;
use crate::http::{RunResult, RunResultModel};

verus! {

/// One item on a reply channel.
#[derive(Debug, PartialEq, Eq)]
pub enum Reply {
    /// The result of the run. `RunResult::Stream` opens a stream.
    Result(RunResult),
    /// The next bytes of a streamed body.
    Chunk(Vec<u8>),
    /// The streamed body is complete.
    Done,
    /// The streamed body broke off; the text says why.
    Failed(String),
}

/// What a `Reply` stands for.
pub enum ReplyModel {
    Result(RunResultModel),
    Chunk(Seq<u8>),
    Done,
    Failed(Seq<char>),
}

impl View for Reply {
    type V = ReplyModel;

    open spec fn view(&self) -> ReplyModel {
        match self {
            Reply::Result(result) => ReplyModel::Result(result@),
            Reply::Chunk(bytes) => ReplyModel::Chunk(bytes@),
            Reply::Done => ReplyModel::Done,
            Reply::Failed(message) => ReplyModel::Failed(message@),
        }
    }
}

impl ReplyModel {
    /// The head of a stream.
    pub open spec fn opens_stream(self) -> bool {
        self matches ReplyModel::Result(RunResultModel::Stream(_))
    }

    /// A result that is a whole reply by itself.
    pub open spec fn is_final_result(self) -> bool {
        self is Result && !self.opens_stream()
    }

    /// The end of a stream, good or bad.
    pub open spec fn ends_stream(self) -> bool {
        self is Done || self is Failed
    }
}

/// How far the reply to one request has come.
#[derive(Clone, Copy, Debug, PartialEq, Eq, Structural)]
pub enum ReplyState {
    /// Nothing was sent.
    Pending,
    /// The head of a stream was sent; chunks and a terminator follow.
    Streaming,
    /// The reply is complete; the channel takes nothing more.
    Closed,
}

impl ReplyState {
    /// The state after `item`, or `None` where the item may not follow.
    pub open spec fn after(self, item: ReplyModel) -> Option<ReplyState> {
        match self {
            ReplyState::Pending => if item.opens_stream() {
                Some(ReplyState::Streaming)
            } else if item is Result {
                Some(ReplyState::Closed)
            } else {
                None
            },
            ReplyState::Streaming => if item is Chunk {
                Some(ReplyState::Streaming)
            } else if item.ends_stream() {
                Some(ReplyState::Closed)
            } else {
                None
            },
            ReplyState::Closed => None,
        }
    }

    /// The state after a sequence of items, or `None` where one of them may
    /// not follow those before it.
    pub open spec fn after_all(self, items: Seq<ReplyModel>) -> Option<ReplyState>
        decreases items.len(),
    {
        if items.len() == 0 {
            Some(self)
        } else {
            match self.after_all(items.drop_last()) {
                Some(state) => state.after(items.last()),
                None => None,
            }
        }
    }

    /// Takes `item` where it may follow, and says whether it did. An item
    /// that may not follow leaves the state as it is, and is not to be sent.
    pub fn accept(&mut self, item: &Reply) -> (ok: bool)
        ensures
            ok == old(self).after(item@) is Some,
            ok ==> Some(*final(self)) == old(self).after(item@),
            !ok ==> *final(self) == *old(self),
    {
        match *self {
            ReplyState::Pending => match item {
                Reply::Result(result) => {
                    match result {
                        RunResult::Stream(_) => {
                            *self = ReplyState::Streaming;
                        },
                        _ => {
                            *self = ReplyState::Closed;
                        },
                    }
                    true
                },
                _ => false,
            },
            ReplyState::Streaming => match item {
                Reply::Chunk(_) => true,
                Reply::Done => {
                    *self = ReplyState::Closed;
                    true
                },
                Reply::Failed(_) => {
                    *self = ReplyState::Closed;
                    true
                },
                Reply::Result(_) => false,
            },
            ReplyState::Closed => false,
        }
    }
}

/// A whole reply: one result that is no stream head; or a stream head, any
/// number of chunks, and one terminator.
pub open spec fn complete(items: Seq<ReplyModel>) -> bool {
    ||| items.len() == 1 && items[0].is_final_result()
    ||| {
        &&& items.len() >= 2
        &&& items[0].opens_stream()
        &&& forall|i: int| 0 < i < items.len() - 1 ==> (#[trigger] items[i]) is Chunk
        &&& items.last().ends_stream()
    }
}

/// The start of a streamed reply that has not ended: a stream head and chunks.
pub open spec fn streaming(items: Seq<ReplyModel>) -> bool {
    &&& items.len() >= 1
    &&& items[0].opens_stream()
    &&& forall|i: int| 0 < i < items.len() ==> (#[trigger] items[i]) is Chunk
}

/// How many results a sequence of items holds.
pub open spec fn results_in(items: Seq<ReplyModel>) -> nat
    decreases items.len(),
{
    if items.len() == 0 {
        0
    } else {
        results_in(items.drop_last()) + if items.last() is Result {
            1nat
        } else {
            0nat
        }
    }
}

/// The items that a channel has taken from the start tell its state: none
/// were sent, or they are the start of a stream, or they are a whole reply.
pub proof fn law_state_tells_what_was_sent(items: Seq<ReplyModel>)
    ensures
        ReplyState::Pending.after_all(items) == Some(ReplyState::Pending) <==> items.len() == 0,
        ReplyState::Pending.after_all(items) == Some(ReplyState::Streaming) <==> streaming(items),
        ReplyState::Pending.after_all(items) == Some(ReplyState::Closed) <==> complete(items),
    decreases items.len(),
{
    if items.len() > 0 {
        let front = items.drop_last();
        law_state_tells_what_was_sent(front);
        let last = items.len() - 1;
        assert(items[last] == items.last());
        if front.len() > 0 {
            assert(front[0] == items[0]);
        }
        if streaming(front) {
            assert forall|i: int| 0 < i < items.len() - 1 implies (#[trigger] items[i]) is Chunk by {
                assert(front[i] == items[i]);
            }
        }
        if streaming(items) {
            assert forall|i: int| 0 < i < front.len() implies (#[trigger] front[i]) is Chunk by {
                assert(front[i] == items[i]);
            }
        }
        if complete(items) && items.len() >= 2 {
            assert forall|i: int| 0 < i < front.len() implies (#[trigger] front[i]) is Chunk by {
                assert(front[i] == items[i]);
            }
        }
        if complete(front) {
            assert(front.last() == items[last - 1]);
        }
    }
}

/// A reply that was taken whole holds exactly one result, and it comes first.
pub proof fn law_whole_reply_has_one_result(items: Seq<ReplyModel>)
    requires
        complete(items),
    ensures
        results_in(items) == 1,
        items[0] is Result,
{
    lemma_results_in_tail(items, items.len() as int);
    assert(items.take(items.len() as int) =~= items);
}

/// Behind the first item of a whole reply there is no further result.
proof fn lemma_results_in_tail(items: Seq<ReplyModel>, upto: int)
    requires
        complete(items),
        1 <= upto <= items.len(),
    ensures
        results_in(items.take(upto)) == 1,
    decreases upto,
{
    let part = items.take(upto);
    assert(part.last() == items[upto - 1]);
    if upto == 1 {
        assert(part.drop_last() =~= Seq::<ReplyModel>::empty());
        assert(results_in(part.drop_last()) == 0);
    } else {
        lemma_results_in_tail(items, upto - 1);
        assert(part.drop_last() =~= items.take(upto - 1));
        if upto < items.len() {
            assert(items[upto - 1] is Chunk);
        } else {
            assert(items[upto - 1] == items.last());
        }
    }
}

/// A closed channel takes nothing more.
pub proof fn law_closed_takes_nothing(item: ReplyModel)
    ensures
        ReplyState::Closed.after(item) is None,
{
}

} // verus!

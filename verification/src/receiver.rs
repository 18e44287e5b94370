//! The front-end's end of a reply channel: how the items that come for one
//! request become one HTTP response, and what the host log is told.

use vstd::prelude::*;
use crate::frontend::ResponseEvent;
use crate::http::{
    Body, BodyModel, HeaderList, Headers, Response, ResponseModel, RunResult, RunResultModel,
};
use crate::lifecycle::{Event, LifecycleModel, Sent};
use crate::reply::{complete, Reply, ReplyModel, ReplyState};

verus! {

/// The status of the response for a run that gave none.
pub const FAILURE_STATUS: u16 = 500;

/// How far the HTTP response has come.
#[derive(Clone, Copy, Debug, PartialEq, Eq, Structural)]
pub enum Receiving {
    /// Nothing was written.
    Start,
    /// The head of a streamed response was written; its body is open.
    Body,
    /// The response is complete or was cut off.
    Ended,
}

/// What is written to the client.
#[derive(Debug, PartialEq, Eq)]
pub enum Output {
    /// Nothing.
    Nothing,
    /// A whole response.
    Whole { status: u16, headers: Headers, body: Vec<u8> },
    /// The head of a response whose body follows.
    Head { status: u16, headers: Headers },
    /// The next bytes of the body.
    Data(Vec<u8>),
    /// The end of the body.
    End,
    /// The connection is cut: the body broke off.
    Abort,
}

/// What an `Output` stands for.
pub enum OutputModel {
    Nothing,
    Whole { status: u16, headers: HeaderList, body: Seq<u8> },
    Head { status: u16, headers: HeaderList },
    Data(Seq<u8>),
    End,
    Abort,
}

impl View for Output {
    type V = OutputModel;

    open spec fn view(&self) -> OutputModel {
        match self {
            Output::Nothing => OutputModel::Nothing,
            Output::Whole { status, headers, body } => OutputModel::Whole {
                status: *status,
                headers: headers@,
                body: body@,
            },
            Output::Head { status, headers } => OutputModel::Head {
                status: *status,
                headers: headers@,
            },
            Output::Data(bytes) => OutputModel::Data(bytes@),
            Output::End => OutputModel::End,
            Output::Abort => OutputModel::Abort,
        }
    }
}

/// The response for a run that gave none: status 500, no header, no byte.
pub open spec fn failure() -> OutputModel {
    OutputModel::Whole { status: FAILURE_STATUS, headers: Seq::empty(), body: Seq::empty() }
}

/// The bytes of a body that is at hand; a body that is a stream handle has
/// none here.
pub open spec fn bytes_of(body: BodyModel) -> Seq<u8> {
    match body {
        BodyModel::Bytes(bytes) => bytes,
        BodyModel::Stream(_) => Seq::empty(),
    }
}

impl Receiving {
    /// The state after `item` came.
    pub open spec fn after(self, item: ReplyModel) -> Receiving {
        match self {
            Receiving::Start => match item {
                ReplyModel::Result(RunResultModel::Stream(_)) => Receiving::Body,
                ReplyModel::Result(_) => Receiving::Ended,
                ReplyModel::Done => Receiving::Ended,
                _ => Receiving::Start,
            },
            Receiving::Body => match item {
                ReplyModel::Done => Receiving::Ended,
                ReplyModel::Failed(_) => Receiving::Ended,
                _ => Receiving::Body,
            },
            Receiving::Ended => Receiving::Ended,
        }
    }

    /// What is written to the client when `item` comes.
    pub open spec fn writes(self, item: ReplyModel) -> OutputModel {
        match self {
            Receiving::Start => match item {
                ReplyModel::Result(RunResultModel::Response(response)) => OutputModel::Whole {
                    status: response.status,
                    headers: response.headers,
                    body: bytes_of(response.body),
                },
                ReplyModel::Result(RunResultModel::Stream(meta)) => OutputModel::Head {
                    status: meta.status,
                    headers: meta.headers,
                },
                ReplyModel::Result(_) => failure(),
                ReplyModel::Done => failure(),
                _ => OutputModel::Nothing,
            },
            Receiving::Body => match item {
                ReplyModel::Chunk(bytes) => OutputModel::Data(bytes),
                ReplyModel::Done => OutputModel::End,
                ReplyModel::Failed(_) => OutputModel::Abort,
                ReplyModel::Result(_) => OutputModel::Nothing,
            },
            Receiving::Ended => OutputModel::Nothing,
        }
    }

    /// What the host log is told when `item` comes.
    pub open spec fn notes(self, item: Reply) -> Option<ResponseEvent> {
        match (self, item) {
            (Receiving::Start, Reply::Result(RunResult::Response(response))) => Some(
                ResponseEvent::Bytes(bytes_of(response.body@).len() as usize),
            ),
            (Receiving::Start, Reply::Result(RunResult::Stream(_))) => None,
            (Receiving::Start, Reply::Result(RunResult::Error(message))) => Some(
                ResponseEvent::Error(message),
            ),
            (Receiving::Start, Reply::Result(result)) => Some(ResponseEvent::LimitsReached(result)),
            (Receiving::Start, Reply::Done) => Some(ResponseEvent::StreamDoneNoDataError),
            (Receiving::Start, _) => None,
            (Receiving::Body, Reply::Result(result)) => Some(
                ResponseEvent::UnexpectedStreamResult(result),
            ),
            (Receiving::Body, Reply::Failed(message)) => Some(ResponseEvent::Error(message)),
            (Receiving::Body, _) => None,
            (Receiving::Ended, Reply::Chunk(_)) => Some(ResponseEvent::StreamDoneDataError),
            (Receiving::Ended, _) => None,
        }
    }

    /// Takes the next item of the reply: says what to write to the client
    /// and what to tell the host log.
    ///
    /// A response is written as it is. A stream head opens the response,
    /// chunks follow as they come, and the terminator ends the body or cuts
    /// the connection. A run that ended on an error or on a limit, and a
    /// stream that ended before it began, are answered with status 500 and
    /// an empty body. A result that comes into an open body, and a chunk
    /// that comes after the end, are reported and not written. Whatever
    /// else may not come is dropped.
    pub fn receive(&mut self, item: Reply) -> (r: (Output, Option<ResponseEvent>))
        ensures
            *final(self) == old(self).after(item@),
            r.0@ == old(self).writes(item@),
            r.1 == old(self).notes(item),
    {
        match *self {
            Receiving::Start => match item {
                Reply::Result(result) => match result {
                    RunResult::Response(response) => {
                        *self = Receiving::Ended;
                        let Response { status, headers, body } = response;
                        let bytes = match body {
                            Body::Bytes(bytes) => bytes,
                            Body::Stream(_) => Vec::new(),
                        };
                        let count = bytes.len();
                        (
                            Output::Whole { status, headers, body: bytes },
                            Some(ResponseEvent::Bytes(count)),
                        )
                    },
                    RunResult::Stream(meta) => {
                        *self = Receiving::Body;
                        (Output::Head { status: meta.status, headers: meta.headers }, None)
                    },
                    RunResult::Error(message) => {
                        *self = Receiving::Ended;
                        (failed(), Some(ResponseEvent::Error(message)))
                    },
                    other => {
                        *self = Receiving::Ended;
                        (failed(), Some(ResponseEvent::LimitsReached(other)))
                    },
                },
                Reply::Done => {
                    *self = Receiving::Ended;
                    (failed(), Some(ResponseEvent::StreamDoneNoDataError))
                },
                _ => (Output::Nothing, None),
            },
            Receiving::Body => match item {
                Reply::Chunk(bytes) => (Output::Data(bytes), None),
                Reply::Done => {
                    *self = Receiving::Ended;
                    (Output::End, None)
                },
                Reply::Failed(message) => {
                    *self = Receiving::Ended;
                    (Output::Abort, Some(ResponseEvent::Error(message)))
                },
                Reply::Result(result) => (
                    Output::Nothing,
                    Some(ResponseEvent::UnexpectedStreamResult(result)),
                ),
            },
            Receiving::Ended => match item {
                Reply::Chunk(_) => (Output::Nothing, Some(ResponseEvent::StreamDoneDataError)),
                _ => (Output::Nothing, None),
            },
        }
    }
}

/// Whether the host log is told of a reply that broke the order of the
/// channel.
pub open spec fn is_violation(event: Option<ResponseEvent>) -> bool {
    event matches Some(e) && (e is StreamDoneNoDataError || e is StreamDoneDataError
        || e is UnexpectedStreamResult)
}

/// The state after the items of a reply came, from the start.
pub open spec fn state_after(items: Seq<Reply>) -> Receiving
    decreases items.len(),
{
    if items.len() == 0 {
        Receiving::Start
    } else {
        state_after(items.drop_last()).after(items.last()@)
    }
}

/// A whole reply becomes one HTTP response. A single result is written as
/// a whole response. A stream is written as its head, then one piece of
/// data for each chunk, then the end of the body or the cut of the
/// connection. Nothing of it is dropped, and the host log is told of no
/// broken order.
pub proof fn law_whole_reply_is_one_response(items: Seq<Reply>, at: int)
    requires
        complete(items.map_values(|item: Reply| item@)),
        0 <= at < items.len(),
    ensures
        state_after(items) == Receiving::Ended,
        !is_violation(state_after(items.take(at)).notes(items[at])),
        ({
            let output = state_after(items.take(at)).writes(items[at]@);
            if items.len() == 1 {
                output is Whole
            } else if at == 0 {
                output is Head
            } else if at < items.len() - 1 {
                output is Data
            } else {
                output is End || output is Abort
            }
        }),
{
    let models = items.map_values(|item: Reply| item@);
    lemma_state_in_reply(items, items.len() as int);
    lemma_state_in_reply(items, at);
    assert(items.take(items.len() as int) =~= items);
    assert(models[at] == items[at]@);
    assert(models[0] == items[0]@);
    assert(models.last() == items.last()@);
}

/// Inside a whole reply the front-end is at the start before the first
/// item, in the body behind the head of a stream, and at the end behind
/// the last item.
proof fn lemma_state_in_reply(items: Seq<Reply>, upto: int)
    requires
        complete(items.map_values(|item: Reply| item@)),
        0 <= upto <= items.len(),
    ensures
        state_after(items.take(upto)) == (if upto == 0 {
            Receiving::Start
        } else if upto < items.len() {
            Receiving::Body
        } else {
            Receiving::Ended
        }),
    decreases upto,
{
    let models = items.map_values(|item: Reply| item@);
    if upto > 0 {
        lemma_state_in_reply(items, upto - 1);
        assert(items.take(upto).drop_last() =~= items.take(upto - 1));
        assert(items.take(upto).last() == items[upto - 1]);
        assert(models[upto - 1] == items[upto - 1]@);
        assert(models[0] == items[0]@);
        assert(models.last() == items.last()@);
    }
}

/// The response that the handler returns reaches the client as it is:
/// the isolate sends it as the result of the request, and the front-end
/// writes its status, its headers and its bytes.
pub proof fn law_response_passes_unchanged(m: LifecycleModel, response: ResponseModel)
    requires
        m.current matches Some(active) && active.reply == ReplyState::Pending,
    ensures
        m.sends(Event::Settle(RunResultModel::Response(response))) == Some(
            Sent {
                request: m.current->0.id,
                item: ReplyModel::Result(RunResultModel::Response(response)),
            },
        ),
        Receiving::Start.writes(ReplyModel::Result(RunResultModel::Response(response)))
            == (OutputModel::Whole {
            status: response.status,
            headers: response.headers,
            body: bytes_of(response.body),
        }),
{
}

fn failed() -> (r: Output)
    ensures
        r@ == failure(),
{
    Output::Whole { status: FAILURE_STATUS, headers: Headers::new(), body: Vec::new() }
}

} // verus!

//! What holds of the replies of an isolate over any sequence of events.

use vstd::prelude::*;
use crate::http::RunResultModel;
use crate::lifecycle::{Event, LifecycleModel, Phase};
use crate::reply::{
    complete, law_state_tells_what_was_sent, law_whole_reply_has_one_result, results_in, streaming,
    ReplyModel, ReplyState,
};
use crate::timers::MAX_PERIOD;

verus! {

/// Whether `items` is what the reply channel of `request` should have seen
/// by now: nothing where the request was not taken yet, the start of a
/// reply that leads to the state of the current request where it is the
/// current one, and a whole reply where it is over.
pub open spec fn tracks(m: LifecycleModel, items: Seq<ReplyModel>, request: u64) -> bool {
    if request == 0 || request >= m.next_request {
        items.len() == 0
    } else if m.current is Some && m.current->0.id == request {
        ReplyState::Pending.after_all(items) == Some(m.current->0.reply)
    } else {
        ReplyState::Pending.after_all(items) == Some(ReplyState::Closed)
    }
}

/// One event keeps the isolate well formed and the replies on track.
proof fn lemma_step_keeps_track(
    m: LifecycleModel,
    items: Seq<ReplyModel>,
    event: Event,
    request: u64,
)
    requires
        m.wf(),
        tracks(m, items, request),
    ensures
        m.step(event).wf(),
        tracks(
            m.step(event),
            match m.sends(event) {
                Some(sent) => if sent.request == request {
                    items.push(sent.item)
                } else {
                    items
                },
                None => items,
            },
            request,
        ),
{
    match m.sends(event) {
        Some(sent) => {
            if sent.request == request {
                assert(items.push(sent.item).drop_last() =~= items);
                assert(items.push(sent.item).last() == sent.item);
            }
        },
        None => {},
    }
}

/// The replies are on track after any sequence of events.
proof fn lemma_run_keeps_track(timeout: u64, events: Seq<Event>, request: u64)
    requires
        timeout <= MAX_PERIOD,
    ensures
        LifecycleModel::initial(timeout).run(events).wf(),
        tracks(
            LifecycleModel::initial(timeout).run(events),
            LifecycleModel::initial(timeout).sent_to(events, request),
            request,
        ),
    decreases events.len(),
{
    let start = LifecycleModel::initial(timeout);
    if events.len() > 0 {
        lemma_run_keeps_track(timeout, events.drop_last(), request);
        lemma_step_keeps_track(
            start.run(events.drop_last()),
            start.sent_to(events.drop_last(), request),
            events.last(),
            request,
        );
    }
}

/// Whatever happens to an isolate, each request that it took and that is
/// over has had a whole reply: exactly one result, and, where that
/// was the head of a stream, the chunks and exactly one terminator behind
/// it. The request that is still running has had nothing, or the start of
/// a stream. A request that was not taken has had nothing.
pub proof fn law_every_request_gets_one_reply(timeout: u64, events: Seq<Event>, request: u64)
    requires
        timeout <= MAX_PERIOD,
    ensures
        ({
            let end = LifecycleModel::initial(timeout).run(events);
            let items = LifecycleModel::initial(timeout).sent_to(events, request);
            if request == 0 || request >= end.next_request {
                items.len() == 0
            } else if end.current is Some && end.current->0.id == request {
                if end.current->0.reply == ReplyState::Pending {
                    items.len() == 0
                } else {
                    streaming(items)
                }
            } else {
                complete(items) && results_in(items) == 1
            }
        }),
{
    let end = LifecycleModel::initial(timeout).run(events);
    let items = LifecycleModel::initial(timeout).sent_to(events, request);
    lemma_run_keeps_track(timeout, events, request);
    law_state_tells_what_was_sent(items);
    if complete(items) {
        law_whole_reply_has_one_result(items);
    }
}

/// A request whose budget is spent is over at the next check, and what is
/// sent then closes its reply: `Timeout` or `MemoryLimit` as its result,
/// or the failure of its stream.
pub proof fn law_spent_budget_ends_the_request(m: LifecycleModel, now: u64)
    requires
        m.wf(),
        m.current is Some,
        m.heap_hit || now > m.current->0.deadline,
    ensures
        m.step(Event::CheckQuota(now)).current is None,
        m.sends(Event::CheckQuota(now)) matches Some(sent) && sent.request == m.current->0.id
            && m.current->0.reply.after(sent.item) == Some(ReplyState::Closed),
        m.current->0.reply == ReplyState::Pending ==> m.sends(Event::CheckQuota(now))->0.item == (
        if m.heap_hit {
            ReplyModel::Result(RunResultModel::MemoryLimit)
        } else {
            ReplyModel::Result(RunResultModel::Timeout)
        }),
{
}

/// A request within its budget is left alone by the check.
pub proof fn law_budget_spares_the_request(m: LifecycleModel, now: u64)
    requires
        m.wf(),
        m.current is Some,
        !m.heap_hit,
        now <= m.current->0.deadline,
    ensures
        m.step(Event::CheckQuota(now)) == m,
        m.sends(Event::CheckQuota(now)) is None,
{
}

/// A request that ends on a limit does not poison the isolate: it takes the
/// next request.
pub proof fn law_limits_do_not_poison(m: LifecycleModel, now: u64)
    requires
        m.wf(),
        m.current is Some,
        m.next_request < u64::MAX,
    ensures
        m.step(Event::CheckQuota(now)).phase == Phase::Serving,
        m.step(Event::CheckQuota(now)).current is None ==> m.step(
            Event::CheckQuota(now),
        ).takes_requests(),
{
}

/// A poisoned isolate fails every request that it is offered, with the
/// message that poisoned it, and runs none.
pub proof fn law_poisoned_fails_every_request(m: LifecycleModel, arrival: u64)
    requires
        m.wf(),
        m.phase == Phase::Poisoned,
        m.next_request < u64::MAX,
    ensures
        m.sends(Event::Accept(arrival)) matches Some(sent) && sent.request == m.next_request
            && sent.item == ReplyModel::Result(RunResultModel::Error(m.failure)),
        m.step(Event::Accept(arrival)).current is None,
        m.step(Event::Accept(arrival)).phase == Phase::Poisoned,
{
    assert(m.current is None);
}

/// When an isolate is torn down, the request that it runs is told so, and
/// its reply is closed by that.
pub proof fn law_disposal_answers_the_request(m: LifecycleModel)
    requires
        m.wf(),
        m.current is Some,
    ensures
        m.sends(Event::Dispose) matches Some(sent) && sent.request == m.current->0.id
            && m.current->0.reply.after(sent.item) == Some(ReplyState::Closed),
        m.step(Event::Dispose).current is None,
        m.step(Event::Dispose).phase == Phase::Disposed,
{
}

} // verus!

//! What holds of a dispatcher over any run of events: older requests are
//! tried before younger ones, no request is lost, and a pass over the queue
//! answers exactly the requests that the handler completes.

use crate::completion::Disposition;
use crate::completion::PendingRequest;
use crate::completion::Target;
use crate::dispatch::Completed;
use crate::dispatch::DispatcherView;
use crate::dispatch::HandlerOutcome;
use vstd::multiset::Multiset;
use vstd::prelude::*;

verus! {

/// One thing that the event loop tells the dispatcher.
pub enum DispatchEvent {
    /// A request has arrived.
    Submit(u64, Target),
    /// The device has raised an interrupt.
    Interrupt,
    /// The handler has answered for the request under the cursor.
    Resolve(HandlerOutcome),
}

/// The dispatcher after one event.
pub open spec fn step(d: DispatcherView, event: DispatchEvent) -> DispatcherView {
    match event {
        DispatchEvent::Submit(token, target) => d.submit(token, target),
        DispatchEvent::Interrupt => d.on_interrupt(),
        DispatchEvent::Resolve(outcome) => d.resolve(outcome),
    }
}

/// The dispatcher after a run of events.
pub open spec fn run(d: DispatcherView, events: Seq<DispatchEvent>) -> DispatcherView
    decreases events.len(),
{
    if events.len() == 0 {
        d
    } else {
        step(run(d, events.drop_last()), events.last())
    }
}

/// The tokens of the requests in a queue, each as often as it occurs.
pub open spec fn tokens(queue: Seq<PendingRequest>) -> Multiset<u64>
    decreases queue.len(),
{
    if queue.len() == 0 {
        Multiset::empty()
    } else {
        tokens(queue.drop_last()).insert(queue.last().token)
    }
}

/// The tokens of the requests that arrived during a run.
pub open spec fn submitted(events: Seq<DispatchEvent>) -> Multiset<u64>
    decreases events.len(),
{
    if events.len() == 0 {
        Multiset::empty()
    } else {
        match events.last() {
            DispatchEvent::Submit(token, _) => submitted(events.drop_last()).insert(token),
            _ => submitted(events.drop_last()),
        }
    }
}

/// The answers that a run gave, in the order in which it gave them.
pub open spec fn answers(d: DispatcherView, events: Seq<DispatchEvent>) -> Seq<Completed>
    decreases events.len(),
{
    if events.len() == 0 {
        Seq::empty()
    } else {
        let before = run(d, events.drop_last());
        match events.last() {
            DispatchEvent::Resolve(outcome) => match before.completion(outcome) {
                Some(answer) => answers(d, events.drop_last()).push(answer),
                None => answers(d, events.drop_last()),
            },
            _ => answers(d, events.drop_last()),
        }
    }
}

/// The tokens of the answers, each as often as it occurs.
pub open spec fn answered(list: Seq<Completed>) -> Multiset<u64>
    decreases list.len(),
{
    if list.len() == 0 {
        Multiset::empty()
    } else {
        answered(list.drop_last()).insert(list.last().token)
    }
}

/// Parking a request leaves the tokens of a queue as they are.
proof fn lemma_tokens_update(queue: Seq<PendingRequest>, at: int, request: PendingRequest)
    requires
        0 <= at < queue.len(),
        request.token == queue[at].token,
    ensures
        tokens(queue.update(at, request)) =~= tokens(queue),
    decreases queue.len(),
{
    let after = queue.update(at, request);
    if at == queue.len() - 1 {
        assert(after.drop_last() =~= queue.drop_last());
    } else {
        assert(after.drop_last() =~= queue.drop_last().update(at, request));
        lemma_tokens_update(queue.drop_last(), at, request);
    }
}

/// Taking a request out of a queue takes its token out of the tokens.
proof fn lemma_tokens_remove(queue: Seq<PendingRequest>, at: int)
    requires
        0 <= at < queue.len(),
    ensures
        tokens(queue.remove(at)).insert(queue[at].token) =~= tokens(queue),
    decreases queue.len(),
{
    let after = queue.remove(at);
    if at == queue.len() - 1 {
        assert(after =~= queue.drop_last());
    } else {
        assert(after.drop_last() =~= queue.drop_last().remove(at));
        assert(after.last() == queue.last());
        lemma_tokens_remove(queue.drop_last(), at);
    }
}

/// An element can be put into either part of a sum of multisets.
proof fn lemma_add_insert(m: Multiset<u64>, n: Multiset<u64>, x: u64)
    ensures
        m.add(n.insert(x)) =~= m.add(n).insert(x),
        m.insert(x).add(n) =~= m.add(n).insert(x),
{
}

/// A run keeps a dispatcher well formed.
pub proof fn lemma_run_wf(d: DispatcherView, events: Seq<DispatchEvent>)
    requires
        d.wf(),
    ensures
        run(d, events).wf(),
    decreases events.len(),
{
    if events.len() > 0 {
        lemma_run_wf(d, events.drop_last());
        let before = run(d, events.drop_last());
        match events.last() {
            DispatchEvent::Submit(token, target) => {
                before.lemma_steps_wf(token, target, HandlerOutcome::WouldBlock);
            },
            DispatchEvent::Interrupt => {
                before.lemma_steps_wf(0, Target { slot: 0, endpoint: 0, tag: None },
                    HandlerOutcome::WouldBlock);
            },
            DispatchEvent::Resolve(outcome) => {
                before.lemma_steps_wf(0, Target { slot: 0, endpoint: 0, tag: None }, outcome);
            },
        }
    }
}

/// No request is lost: over any run of events, the requests that waited at
/// the start together with those that arrived are exactly the requests that
/// were answered together with those that still wait. A request that would
/// block is never dropped; it leaves the queue only with an answer.
pub proof fn lemma_no_request_lost(d: DispatcherView, events: Seq<DispatchEvent>)
    requires
        d.wf(),
    ensures
        run(d, events).wf(),
        tokens(d.queue).add(submitted(events)) =~= answered(answers(d, events)).add(
            tokens(run(d, events).queue),
        ),
    decreases events.len(),
{
    if events.len() > 0 {
        let init = events.drop_last();
        lemma_no_request_lost(d, init);
        lemma_run_wf(d, events);
        let before = run(d, init);
        let after = run(d, events);
        let waiting = tokens(d.queue);
        assert(waiting.add(submitted(init)) =~= answered(answers(d, init)).add(
            tokens(before.queue),
        ));
        match events.last() {
            DispatchEvent::Submit(token, target) => {
                let request = PendingRequest { token, target, disposition: Disposition::Received };
                assert(after.queue.drop_last() =~= before.queue);
                assert(after.queue.last() == request);
                assert(tokens(after.queue) =~= tokens(before.queue).insert(token));
                assert(submitted(events) =~= submitted(init).insert(token));
                assert(answers(d, events) == answers(d, init));
                lemma_add_insert(waiting, submitted(init), token);
                lemma_add_insert(answered(answers(d, init)), tokens(before.queue), token);
            },
            DispatchEvent::Interrupt => {
                assert(after.queue == before.queue);
                assert(submitted(events) =~= submitted(init));
                assert(answers(d, events) == answers(d, init));
            },
            DispatchEvent::Resolve(outcome) => {
                assert(submitted(events) =~= submitted(init));
                if before.idle() {
                    assert(after == before);
                    assert(answers(d, events) == answers(d, init));
                } else {
                    let at = before.cursor as int;
                    match outcome {
                        HandlerOutcome::WouldBlock => {
                            lemma_tokens_update(
                                before.queue,
                                at,
                                PendingRequest {
                                    disposition: Disposition::WouldBlock,
                                    ..before.queue[at]
                                },
                            );
                            assert(tokens(after.queue) =~= tokens(before.queue));
                            assert(answers(d, events) == answers(d, init));
                        },
                        _ => {
                            lemma_tokens_remove(before.queue, at);
                            let answer = before.completion(outcome)->0;
                            let token = before.queue[at].token;
                            assert(answer.token == token);
                            assert(answers(d, events) == answers(d, init).push(answer));
                            assert(answers(d, events).drop_last() =~= answers(d, init));
                            assert(answers(d, events).last() == answer);
                            assert(answered(answers(d, events)) =~= answered(
                                answers(d, init),
                            ).insert(token));
                            assert(tokens(after.queue).insert(token) =~= tokens(before.queue));
                            lemma_add_insert(
                                answered(answers(d, init)),
                                tokens(after.queue),
                                token,
                            );
                        },
                    }
                }
            },
        }
    }
}

/// Where the request at position `at` stands after one event; `None` where
/// the event answered it.
pub open spec fn follow(d: DispatcherView, event: DispatchEvent, at: int) -> Option<int> {
    match event {
        DispatchEvent::Resolve(outcome) => if d.idle() || outcome is WouldBlock {
            Some(at)
        } else if at == d.cursor {
            None
        } else if at > d.cursor {
            Some(at - 1)
        } else {
            Some(at)
        },
        _ => Some(at),
    }
}

/// Where the request that stood at position `at` of the queue of `d`
/// stands after a run of events; `None` where the run answered it.
pub open spec fn position(d: DispatcherView, events: Seq<DispatchEvent>, at: int) -> Option<int>
    decreases events.len(),
{
    if events.len() == 0 {
        Some(at)
    } else {
        match position(d, events.drop_last(), at) {
            Some(p) => follow(run(d, events.drop_last()), events.last(), p),
            None => None,
        }
    }
}

/// How often, during a run of events, the handler answered for the request
/// that stood at position `at` of the queue of `d`.
pub open spec fn attempts(d: DispatcherView, events: Seq<DispatchEvent>, at: int) -> nat
    decreases events.len(),
{
    if events.len() == 0 {
        0
    } else {
        let before = run(d, events.drop_last());
        let hit = events.last() is Resolve && !before.idle() && position(
            d,
            events.drop_last(),
            at,
        ) == Some(before.cursor as int);
        if hit {
            attempts(d, events.drop_last(), at) + 1
        } else {
            attempts(d, events.drop_last(), at)
        }
    }
}

/// Older first: take two waiting requests, `a` older than `b`, at a moment
/// when the pass has not gone by `a` yet (as is the case for every waiting
/// request right after a request has arrived or an interrupt was taken).
/// Then over any run of events the handler is not asked about `b` before it
/// has answered for `a` again. This holds of every two requests, whatever
/// their targets, and so of two requests for one endpoint.
pub proof fn lemma_older_first(d: DispatcherView, events: Seq<DispatchEvent>, a: int, b: int)
    requires
        d.wf(),
        0 <= a < b < d.queue.len(),
        d.cursor <= a,
    ensures
        run(d, events).wf(),
        attempts(d, events, b) >= 1 ==> attempts(d, events, a) >= 1,
        attempts(d, events, a) == 0 ==> position(d, events, a) is Some && run(d, events).cursor
            <= position(d, events, a)->0,
        position(d, events, a) matches Some(pa) ==> 0 <= pa < run(d, events).queue.len() && run(
            d,
            events,
        ).queue[pa].token == d.queue[a].token && run(d, events).queue[pa].target
            == d.queue[a].target,
        position(d, events, b) matches Some(pb) ==> 0 <= pb < run(d, events).queue.len() && run(
            d,
            events,
        ).queue[pb].token == d.queue[b].token && run(d, events).queue[pb].target
            == d.queue[b].target,
        position(d, events, a) is Some && position(d, events, b) is Some ==> position(
            d,
            events,
            a,
        )->0 < position(d, events, b)->0,
        position(d, events, b) is None ==> attempts(d, events, b) >= 1,
    decreases events.len(),
{
    if events.len() > 0 {
        let init = events.drop_last();
        lemma_older_first(d, init, a, b);
        lemma_run_wf(d, events);
    }
}

/// A parked request is tried again before a new one is tried: where a
/// request arrives while another request waits, then over any run of events
/// that follows, the handler is not asked about the new request before it
/// has answered again for the one that waited.
pub proof fn lemma_parked_retried_before_new(
    d: DispatcherView,
    token: u64,
    target: Target,
    events: Seq<DispatchEvent>,
    a: int,
)
    requires
        d.wf(),
        0 <= a < d.queue.len(),
    ensures
        attempts(d.submit(token, target), events, d.queue.len() as int) >= 1 ==> attempts(
            d.submit(token, target),
            events,
            a,
        ) >= 1,
        d.submit(token, target).queue[d.queue.len() as int].token == token,
        d.submit(token, target).queue[a].token == d.queue[a].token,
{
    d.lemma_steps_wf(token, target, HandlerOutcome::WouldBlock);
    lemma_older_first(d.submit(token, target), events, a, d.queue.len() as int);
}

/// A run in which the handler answers once for each of the given outcomes.
pub open spec fn resolves(outcomes: Seq<HandlerOutcome>) -> Seq<DispatchEvent> {
    Seq::new(outcomes.len(), |i: int| DispatchEvent::Resolve(outcomes[i]))
}

/// The request as it stands in the queue once it is parked.
pub open spec fn parked(request: PendingRequest) -> PendingRequest {
    PendingRequest { disposition: Disposition::WouldBlock, ..request }
}

/// The answer that an outcome gives to a request, if it gives one.
pub open spec fn answer_to(request: PendingRequest, outcome: HandlerOutcome) -> Option<Completed> {
    match outcome {
        HandlerOutcome::Done(value) => Some(Completed { token: request.token, result: Ok(value) }),
        HandlerOutcome::Failed(error) => Some(
            Completed { token: request.token, result: Err(error) },
        ),
        HandlerOutcome::WouldBlock => None,
    }
}

/// Of the requests of a queue, those for which the handler's outcome, at
/// the same position in `outcomes`, is that the request would block: in the
/// order of the queue, each parked.
pub open spec fn still_parked(queue: Seq<PendingRequest>, outcomes: Seq<HandlerOutcome>) -> Seq<
    PendingRequest,
>
    decreases queue.len(),
{
    if queue.len() == 0 || outcomes.len() == 0 {
        Seq::empty()
    } else if outcomes.last() is WouldBlock {
        still_parked(queue.drop_last(), outcomes.drop_last()).push(parked(queue.last()))
    } else {
        still_parked(queue.drop_last(), outcomes.drop_last())
    }
}

/// The answers to those requests of a queue for which the handler's
/// outcome, at the same position in `outcomes`, is another one, in the
/// order of the queue.
pub open spec fn completions(queue: Seq<PendingRequest>, outcomes: Seq<HandlerOutcome>) -> Seq<
    Completed,
>
    decreases queue.len(),
{
    if queue.len() == 0 || outcomes.len() == 0 {
        Seq::empty()
    } else {
        match answer_to(queue.last(), outcomes.last()) {
            Some(answer) => completions(queue.drop_last(), outcomes.drop_last()).push(answer),
            None => completions(queue.drop_last(), outcomes.drop_last()),
        }
    }
}

/// The first `k` steps of a pass.
proof fn lemma_pass_prefix(d: DispatcherView, outcomes: Seq<HandlerOutcome>, k: int)
    requires
        d.wf(),
        d.cursor == 0,
        outcomes.len() == d.queue.len(),
        0 <= k <= outcomes.len(),
    ensures
        ({
            let events = resolves(outcomes.take(k));
            let kept = still_parked(d.queue.take(k), outcomes.take(k));
            &&& run(d, events).queue =~= kept + d.queue.skip(k)
            &&& run(d, events).cursor == kept.len()
            &&& answers(d, events) =~= completions(d.queue.take(k), outcomes.take(k))
        }),
    decreases k,
{
    let events = resolves(outcomes.take(k));
    if k == 0 {
        assert(d.queue.skip(0) =~= d.queue);
    } else {
        lemma_pass_prefix(d, outcomes, k - 1);
        assert(events.drop_last() =~= resolves(outcomes.take(k - 1)));
        assert(events.last() == DispatchEvent::Resolve(outcomes[k - 1]));
        assert(d.queue.take(k).drop_last() =~= d.queue.take(k - 1));
        assert(outcomes.take(k).drop_last() =~= outcomes.take(k - 1));
        assert(d.queue.take(k).last() == d.queue[k - 1]);
        assert(outcomes.take(k).last() == outcomes[k - 1]);
        let before = run(d, resolves(outcomes.take(k - 1)));
        let kept = still_parked(d.queue.take(k - 1), outcomes.take(k - 1));
        assert(before.queue[kept.len() as int] == d.queue.skip(k - 1)[0]);
        assert(!before.idle());
    }
}

/// One pass over the queue: where a pass starts at the oldest request and
/// the handler answers once for each waiting request, in order, the
/// requests that would block are all that stays in the queue, parked and in
/// the order of their arrival, and the answers given are those for all the
/// other requests, in the order of arrival. The pass is then over.
pub proof fn lemma_pass(d: DispatcherView, outcomes: Seq<HandlerOutcome>)
    requires
        d.wf(),
        d.cursor == 0,
        outcomes.len() == d.queue.len(),
    ensures
        run(d, resolves(outcomes)).queue =~= still_parked(d.queue, outcomes),
        run(d, resolves(outcomes)).idle(),
        answers(d, resolves(outcomes)) =~= completions(d.queue, outcomes),
{
    lemma_pass_prefix(d, outcomes, outcomes.len() as int);
    assert(outcomes.take(outcomes.len() as int) =~= outcomes);
    assert(d.queue.take(d.queue.len() as int) =~= d.queue);
    assert(d.queue.skip(d.queue.len() as int) =~= Seq::<PendingRequest>::empty());
}

/// Every request is answered in the end: where a pass starts at the oldest
/// request and the handler has an answer other than "would block" for each
/// waiting request, the pass answers every one of them, in the order of
/// arrival, and leaves the queue empty.
pub proof fn lemma_all_answered(d: DispatcherView, outcomes: Seq<HandlerOutcome>)
    requires
        d.wf(),
        d.cursor == 0,
        outcomes.len() == d.queue.len(),
        forall|i: int| 0 <= i < outcomes.len() ==> !(#[trigger] outcomes[i] is WouldBlock),
    ensures
        run(d, resolves(outcomes)).queue =~= Seq::<PendingRequest>::empty(),
        answers(d, resolves(outcomes)).len() == d.queue.len(),
        forall|i: int|
            0 <= i < d.queue.len() ==> Some(#[trigger] answers(d, resolves(outcomes))[i])
                == answer_to(d.queue[i], outcomes[i]),
{
    lemma_pass(d, outcomes);
    lemma_none_parked(d.queue, outcomes);
}

/// Where no outcome is "would block", nothing stays parked and every
/// request has its answer.
proof fn lemma_none_parked(queue: Seq<PendingRequest>, outcomes: Seq<HandlerOutcome>)
    requires
        outcomes.len() == queue.len(),
        forall|i: int| 0 <= i < outcomes.len() ==> !(#[trigger] outcomes[i] is WouldBlock),
    ensures
        still_parked(queue, outcomes) =~= Seq::<PendingRequest>::empty(),
        completions(queue, outcomes).len() == queue.len(),
        forall|i: int|
            0 <= i < queue.len() ==> Some(#[trigger] completions(queue, outcomes)[i]) == answer_to(
                queue[i],
                outcomes[i],
            ),
    decreases queue.len(),
{
    if queue.len() > 0 {
        lemma_none_parked(queue.drop_last(), outcomes.drop_last());
        assert(!(outcomes[outcomes.len() - 1] is WouldBlock));
    }
}

} // verus!

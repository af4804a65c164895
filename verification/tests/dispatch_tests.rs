use driver_core::completion::{
    correlate, decode, drain, Disposition, HardwareCompletionError, Outcome, PendingRequest,
    Target,
};
use driver_core::dispatch::{
    Completed, Dispatcher, HandlerOutcome, LoopControl, ReadResult, StopReason,
};
use driver_core::irq::{InterruptBridge, IrqAction, IrqState};
use driver_core::ring::Ring;
use driver_core::trb::Trb;

fn target(slot: u8, endpoint: u8) -> Target {
    Target { slot, endpoint, tag: None }
}

fn tokens(dispatcher: &Dispatcher) -> Vec<u64> {
    dispatcher.pending().iter().map(|r| r.token).collect()
}

#[test]
fn would_block_word_is_minus_41() {
    let sentinel = (-41isize) as usize;
    assert_eq!(HandlerOutcome::from_word(sentinel), HandlerOutcome::WouldBlock);
    assert_eq!(HandlerOutcome::from_word(41), HandlerOutcome::Done(41));
    assert_eq!(HandlerOutcome::from_word(0), HandlerOutcome::Done(0));
    assert_eq!(HandlerOutcome::from_word(usize::MAX), HandlerOutcome::Done(usize::MAX));
    assert_eq!(
        HandlerOutcome::from_word(sentinel.wrapping_add(1)),
        HandlerOutcome::Done(sentinel.wrapping_add(1))
    );
}

#[test]
fn missing_result_means_would_block() {
    assert_eq!(HandlerOutcome::from_option(None), HandlerOutcome::WouldBlock);
    assert_eq!(HandlerOutcome::from_option(Some(5)), HandlerOutcome::Done(5));
}

#[test]
fn new_dispatcher_is_idle() {
    let dispatcher = Dispatcher::new();
    assert_eq!(dispatcher.len(), 0);
    assert!(dispatcher.is_idle());
    assert_eq!(dispatcher.next_attempt(), None);
}

#[test]
fn immediate_completion_is_answered_at_once() {
    let mut dispatcher = Dispatcher::new();
    dispatcher.submit(1, target(1, 1));
    let request = dispatcher.next_attempt().expect("the new request");
    assert_eq!(
        request,
        PendingRequest { token: 1, target: target(1, 1), disposition: Disposition::Received }
    );
    let answer = dispatcher.resolve(HandlerOutcome::Done(64));
    assert_eq!(answer, Some(Completed { token: 1, result: Ok(64) }));
    assert_eq!(dispatcher.len(), 0);
    assert!(dispatcher.is_idle());
}

#[test]
fn device_error_completes_without_retry() {
    let mut dispatcher = Dispatcher::new();
    dispatcher.submit(1, target(1, 1));
    let error = HardwareCompletionError { code: 6 };
    let answer = dispatcher.resolve(HandlerOutcome::Failed(error));
    assert_eq!(answer, Some(Completed { token: 1, result: Err(error) }));
    assert_eq!(dispatcher.len(), 0);
    dispatcher.on_interrupt();
    assert_eq!(dispatcher.next_attempt(), None);
}

#[test]
fn would_block_parks_the_request() {
    let mut dispatcher = Dispatcher::new();
    dispatcher.submit(1, target(1, 1));
    assert_eq!(dispatcher.resolve(HandlerOutcome::WouldBlock), None);
    assert_eq!(dispatcher.len(), 1);
    assert!(dispatcher.is_idle());
    assert_eq!(dispatcher.pending()[0].disposition, Disposition::WouldBlock);
    assert_eq!(dispatcher.next_attempt(), None);
}

#[test]
fn resolve_without_a_request_changes_nothing() {
    let mut dispatcher = Dispatcher::new();
    assert_eq!(dispatcher.resolve(HandlerOutcome::Done(1)), None);
    dispatcher.submit(1, target(1, 1));
    assert_eq!(dispatcher.resolve(HandlerOutcome::WouldBlock), None);
    assert_eq!(dispatcher.resolve(HandlerOutcome::Done(1)), None);
    assert_eq!(tokens(&dispatcher), vec![1]);
}

#[test]
fn interrupt_retries_in_arrival_order() {
    let mut dispatcher = Dispatcher::new();
    for token in 1..=4u64 {
        dispatcher.submit(token, target(1, token as u8));
        while dispatcher.next_attempt().is_some() {
            assert_eq!(dispatcher.resolve(HandlerOutcome::WouldBlock), None);
        }
    }
    assert_eq!(tokens(&dispatcher), vec![1, 2, 3, 4]);
    dispatcher.on_interrupt();
    let mut asked = Vec::new();
    let mut answered = Vec::new();
    while let Some(request) = dispatcher.next_attempt() {
        asked.push(request.token);
        let outcome = if request.token % 2 == 0 {
            HandlerOutcome::Done(request.token as usize * 10)
        } else {
            HandlerOutcome::WouldBlock
        };
        if let Some(answer) = dispatcher.resolve(outcome) {
            answered.push(answer);
        }
    }
    assert_eq!(asked, vec![1, 2, 3, 4]);
    assert_eq!(
        answered,
        vec![Completed { token: 2, result: Ok(20) }, Completed { token: 4, result: Ok(40) }]
    );
    assert_eq!(tokens(&dispatcher), vec![1, 3]);
    assert!(dispatcher.is_idle());
}

#[test]
fn parked_request_is_retried_before_a_new_one_is_tried() {
    let mut dispatcher = Dispatcher::new();
    dispatcher.submit(1, target(2, 3));
    assert_eq!(dispatcher.resolve(HandlerOutcome::WouldBlock), None);
    dispatcher.submit(2, target(2, 3));
    let first = dispatcher.next_attempt().expect("the parked request");
    assert_eq!(first.token, 1);
    assert_eq!(first.disposition, Disposition::WouldBlock);
    assert_eq!(dispatcher.resolve(HandlerOutcome::WouldBlock), None);
    let second = dispatcher.next_attempt().expect("the new request");
    assert_eq!(second.token, 2);
    assert_eq!(second.disposition, Disposition::Received);
    assert_eq!(dispatcher.resolve(HandlerOutcome::Done(0)), Some(Completed { token: 2, result: Ok(0) }));
    assert_eq!(tokens(&dispatcher), vec![1]);
}

#[test]
fn no_request_is_lost() {
    let mut dispatcher = Dispatcher::new();
    let mut answered = Vec::new();
    let mut submitted = Vec::new();
    for round in 0..30u64 {
        dispatcher.submit(round, target(1, 1));
        submitted.push(round);
        if round % 4 == 3 {
            dispatcher.on_interrupt();
        }
        let mut step = 0u64;
        while let Some(request) = dispatcher.next_attempt() {
            step += 1;
            let outcome = if (request.token + round + step) % 3 == 0 {
                HandlerOutcome::Done(request.token as usize)
            } else {
                HandlerOutcome::WouldBlock
            };
            if let Some(answer) = dispatcher.resolve(outcome) {
                answered.push(answer.token);
            }
        }
        let mut all = answered.clone();
        all.extend(tokens(&dispatcher));
        all.sort();
        assert_eq!(all, submitted);
        let waiting = tokens(&dispatcher);
        let mut sorted = waiting.clone();
        sorted.sort();
        assert_eq!(waiting, sorted);
    }
    dispatcher.on_interrupt();
    while let Some(request) = dispatcher.next_attempt() {
        let answer = dispatcher.resolve(HandlerOutcome::Done(1)).expect("an answer");
        assert_eq!(answer.token, request.token);
        answered.push(answer.token);
    }
    assert_eq!(dispatcher.len(), 0);
    answered.sort();
    assert_eq!(answered, submitted);
}

#[test]
fn parked_request_resolved_by_interrupt() {
    let mut dispatcher = Dispatcher::new();
    let mut bridge = InterruptBridge::new();
    let mut events = Ring::new(0x3000, 4, false).expect("valid geometry");

    let work = Target { slot: 5, endpoint: 1, tag: Some(0x77) };
    dispatcher.submit(42, work);
    assert!(dispatcher.next_attempt().is_some());
    assert_eq!(dispatcher.resolve(HandlerOutcome::WouldBlock), None);
    assert_eq!(tokens(&dispatcher), vec![42]);

    let event = Trb { data: 0x77, status: (1 << 24) | 16, control: (5 << 24) | (1 << 16) | (32 << 10) | 4 };
    assert!(events.enqueue(event).is_ok());

    assert_eq!(bridge.on_signal(8), IrqAction::Claim);
    assert_eq!(bridge.on_claim(true), IrqAction::Drain);
    let outcomes = drain(&mut events);
    let mut results = Vec::new();
    for outcome in outcomes.iter() {
        if let (Some(token), Outcome::Completed(completion)) =
            (correlate(outcome, dispatcher.pending()), outcome)
        {
            results.push((token, completion.result()));
        }
    }
    assert_eq!(results, vec![(42, Ok(16))]);
    assert_eq!(bridge.on_drained(), IrqAction::Acknowledge);
    dispatcher.on_interrupt();

    let mut written = Vec::new();
    while let Some(request) = dispatcher.next_attempt() {
        let outcome = match results.iter().find(|(token, _)| *token == request.token) {
            Some((_, Ok(residual))) => HandlerOutcome::Done(*residual as usize),
            Some((_, Err(error))) => HandlerOutcome::Failed(*error),
            None => HandlerOutcome::WouldBlock,
        };
        if let Some(answer) = dispatcher.resolve(outcome) {
            written.push(answer);
        }
    }
    assert_eq!(written, vec![Completed { token: 42, result: Ok(16) }]);
    assert_eq!(dispatcher.len(), 0);
    assert_eq!(
        dispatcher.on_client_readable(ReadResult::NoData, 0, target(0, 0)),
        LoopControl::Continue
    );
    assert_eq!(dispatcher.len(), 0);
    assert_eq!(decode(&event), outcomes[0]);
}

#[test]
fn client_read_results() {
    let mut dispatcher = Dispatcher::new();
    assert_eq!(
        dispatcher.on_client_readable(ReadResult::Bytes(64), 7, target(1, 2)),
        LoopControl::Continue
    );
    assert_eq!(tokens(&dispatcher), vec![7]);
    assert_eq!(dispatcher.next_attempt().map(|r| r.token), Some(7));
    assert_eq!(
        dispatcher.on_client_readable(ReadResult::NoData, 8, target(1, 2)),
        LoopControl::Continue
    );
    assert_eq!(tokens(&dispatcher), vec![7]);
    assert_eq!(
        dispatcher.on_client_readable(ReadResult::Bytes(0), 9, target(1, 2)),
        LoopControl::Stop(StopReason::TransportClosed)
    );
    assert_eq!(
        dispatcher.on_client_readable(ReadResult::IoError, 10, target(1, 2)),
        LoopControl::Stop(StopReason::TransportIoError)
    );
    assert_eq!(tokens(&dispatcher), vec![7]);
}

#[test]
fn unclaimed_interrupt_is_not_acknowledged() {
    let mut bridge = InterruptBridge::new();
    assert_eq!(bridge.state(), IrqState::Idle);
    assert_eq!(bridge.on_signal(8), IrqAction::Claim);
    assert_eq!(bridge.state(), IrqState::Signalled);
    assert_eq!(bridge.on_claim(false), IrqAction::Wait);
    assert_eq!(bridge.state(), IrqState::Idle);
    assert_eq!(bridge.on_drained(), IrqAction::Wait);
    assert_eq!(bridge.state(), IrqState::Idle);
}

#[test]
fn short_irq_read_is_no_signal() {
    let mut bridge = InterruptBridge::new();
    assert_eq!(bridge.on_signal(0), IrqAction::Wait);
    assert_eq!(bridge.on_signal(7), IrqAction::Wait);
    assert_eq!(bridge.state(), IrqState::Idle);
    assert_eq!(bridge.on_claim(true), IrqAction::Wait);
    assert_eq!(bridge.state(), IrqState::Idle);
    assert_eq!(bridge.on_signal(16), IrqAction::Claim);
}

#[test]
fn acknowledge_follows_claim_and_drain() {
    let mut bridge = InterruptBridge::new();
    assert_eq!(bridge.on_drained(), IrqAction::Wait);
    assert_eq!(bridge.on_signal(8), IrqAction::Claim);
    assert_eq!(bridge.on_drained(), IrqAction::Wait);
    assert_eq!(bridge.on_signal(8), IrqAction::Wait);
    assert_eq!(bridge.on_claim(true), IrqAction::Drain);
    assert_eq!(bridge.state(), IrqState::Claimed);
    assert_eq!(bridge.on_claim(true), IrqAction::Wait);
    assert_eq!(bridge.on_drained(), IrqAction::Acknowledge);
    assert_eq!(bridge.state(), IrqState::Idle);
    assert_eq!(bridge.on_drained(), IrqAction::Wait);
}

//! The request dispatcher: the list of requests that wait for the hardware,
//! in the order of their arrival, and the decisions of the driver's event
//! loop. The loop itself, which waits for events, calls the device's handler
//! and writes answers back, belongs to the caller; it tells the dispatcher
//! what happened and is told what to do next.

use crate::completion::Disposition;
use crate::completion::HardwareCompletionError;
use crate::completion::PendingRequest;
use crate::completion::Target;
use vstd::prelude::*;

verus! {

/// What the device's handler answered when it was handed a request.
#[derive(Clone, Copy, Debug, PartialEq, Eq, Structural)]
pub enum HandlerOutcome {
    /// The request is done, with this result.
    Done(usize),
    /// The request failed for good, with this error; it is not tried again.
    Failed(HardwareCompletionError),
    /// The hardware is not ready yet: the request is to be tried again
    /// later.
    WouldBlock,
}

/// Reads the constant `EWOULDBLOCK` of the crate `syscall`: the error number
/// by which a handler says that a request would block. The contract claims
/// its value, 41.
#[verifier::external_body]
fn would_block_errno() -> (errno: i32)
    ensures
        errno == 41,
{
    syscall::error::EWOULDBLOCK
}

impl HandlerOutcome {
    /// The result word by which a handler says that a request would block:
    /// the error number 41, negated, as an unsigned word.
    pub open spec fn would_block_word() -> usize {
        (usize::MAX - 40) as usize
    }

    /// What a result word says: the word that stands for "would block"
    /// parks the request; any other word, be it a value or an error, is the
    /// result of a request that is done.
    pub open spec fn spec_from_word(word: usize) -> HandlerOutcome {
        if word == HandlerOutcome::would_block_word() {
            HandlerOutcome::WouldBlock
        } else {
            HandlerOutcome::Done(word)
        }
    }

    /// Reads a handler's result word.
    pub fn from_word(word: usize) -> (outcome: HandlerOutcome)
        ensures
            outcome == HandlerOutcome::spec_from_word(word),
    {
        let errno = would_block_errno();
        let sentinel: usize = usize::MAX - (errno as usize - 1);
        if word == sentinel {
            HandlerOutcome::WouldBlock
        } else {
            HandlerOutcome::Done(word)
        }
    }

    /// Reads the answer of a handler that gives no result for a request
    /// that would block.
    pub fn from_option(result: Option<usize>) -> (outcome: HandlerOutcome)
        ensures
            outcome == match result {
                Some(word) => HandlerOutcome::Done(word),
                None => HandlerOutcome::WouldBlock,
            },
    {
        match result {
            Some(word) => HandlerOutcome::Done(word),
            None => HandlerOutcome::WouldBlock,
        }
    }
}

/// The answer to a request, to be written back to the client.
#[derive(Clone, Copy, Debug, PartialEq, Eq)]
pub struct Completed {
    pub token: u64,
    pub result: Result<usize, HardwareCompletionError>,
}

/// What a read from the client transport gave.
#[derive(Clone, Copy, Debug, PartialEq, Eq, Structural)]
pub enum ReadResult {
    /// The read returned this many bytes.
    Bytes(usize),
    /// The transport has nothing to read for now.
    NoData,
    /// The read failed.
    IoError,
}

/// Why the event loop ends.
#[derive(Clone, Copy, Debug, PartialEq, Eq, Structural)]
pub enum StopReason {
    /// The client transport reported its end.
    TransportClosed,
    /// A read or write on a transport failed.
    TransportIoError,
}

/// Whether the event loop goes on.
#[derive(Clone, Copy, Debug, PartialEq, Eq, Structural)]
pub enum LoopControl {
    Continue,
    Stop(StopReason),
}

/// The state of a dispatcher as mathematics.
pub struct DispatcherView {
    /// The requests that were not answered yet, oldest first.
    pub queue: Seq<PendingRequest>,
    /// How far the current pass over the queue has come: the requests before
    /// this position were handed to the handler during the pass and are
    /// parked; the request at this position is the next one to hand over.
    pub cursor: nat,
}

impl DispatcherView {
    /// What always holds: the pass is within the queue, every request that
    /// the pass has gone by is parked, and the requests that were never
    /// tried are the youngest.
    pub open spec fn wf(self) -> bool {
        &&& self.cursor <= self.queue.len()
        &&& forall|i: int|
            0 <= i < self.cursor ==> (#[trigger] self.queue[i]).disposition is WouldBlock
        &&& forall|i: int, j: int|
            0 <= i < j < self.queue.len() && (#[trigger] self.queue[i]).disposition is Received
                ==> (#[trigger] self.queue[j]).disposition is Received
    }

    /// A dispatcher without requests.
    pub open spec fn empty() -> DispatcherView {
        DispatcherView { queue: Seq::empty(), cursor: 0 }
    }

    /// The pass is over: no request is left to hand to the handler until a
    /// new request or an interrupt arrives.
    pub open spec fn idle(self) -> bool {
        self.cursor >= self.queue.len()
    }

    /// The request that the handler is to be asked about next.
    pub open spec fn next_attempt(self) -> Option<PendingRequest> {
        if self.cursor < self.queue.len() {
            Some(self.queue[self.cursor as int])
        } else {
            None
        }
    }

    /// A new request arrives: it joins the queue as the youngest, and a new
    /// pass starts at the oldest request.
    pub open spec fn submit(self, token: u64, target: Target) -> DispatcherView {
        DispatcherView {
            queue: self.queue.push(
                PendingRequest { token, target, disposition: Disposition::Received },
            ),
            cursor: 0,
        }
    }

    /// The device has raised an interrupt: a new pass starts at the oldest
    /// request.
    pub open spec fn on_interrupt(self) -> DispatcherView {
        DispatcherView { queue: self.queue, cursor: 0 }
    }

    /// The handler has answered for the request under the cursor. A request
    /// that would block stays where it is, parked, and the pass goes on
    /// behind it; any other answer takes the request out of the queue.
    pub open spec fn resolve(self, outcome: HandlerOutcome) -> DispatcherView {
        if self.idle() {
            self
        } else {
            match outcome {
                HandlerOutcome::WouldBlock => DispatcherView {
                    queue: self.queue.update(
                        self.cursor as int,
                        PendingRequest {
                            disposition: Disposition::WouldBlock,
                            ..self.queue[self.cursor as int]
                        },
                    ),
                    cursor: self.cursor + 1,
                },
                _ => DispatcherView {
                    queue: self.queue.remove(self.cursor as int),
                    cursor: self.cursor,
                },
            }
        }
    }

    /// The answer that goes back to the client when the handler has
    /// answered for the request under the cursor.
    pub open spec fn completion(self, outcome: HandlerOutcome) -> Option<Completed> {
        if self.idle() {
            None
        } else {
            match outcome {
                HandlerOutcome::Done(value) => Some(
                    Completed { token: self.queue[self.cursor as int].token, result: Ok(value) },
                ),
                HandlerOutcome::Failed(error) => Some(
                    Completed { token: self.queue[self.cursor as int].token, result: Err(error) },
                ),
                HandlerOutcome::WouldBlock => None,
            }
        }
    }

    /// Each step keeps the dispatcher well formed.
    pub proof fn lemma_steps_wf(self, token: u64, target: Target, outcome: HandlerOutcome)
        requires
            self.wf(),
        ensures
            self.submit(token, target).wf(),
            self.on_interrupt().wf(),
            self.resolve(outcome).wf(),
    {
        let after = self.resolve(outcome);
        if !self.idle() {
            match outcome {
                HandlerOutcome::WouldBlock => {
                    assert forall|i: int, j: int|
                        0 <= i < j < after.queue.len() && (
                        #[trigger] after.queue[i]).disposition is Received implies (
                    #[trigger] after.queue[j]).disposition is Received by {
                        assert(i != self.cursor);
                        assert(after.queue[i] == self.queue[i]);
                        if j == self.cursor {
                            assert(self.queue[i].disposition is Received);
                            assert(i > self.cursor) by {
                                if i < self.cursor {
                                    assert(self.queue[i].disposition is WouldBlock);
                                }
                            }
                        } else {
                            assert(after.queue[j] == self.queue[j]);
                        }
                    }
                },
                _ => {
                    assert forall|i: int, j: int|
                        0 <= i < j < after.queue.len() && (
                        #[trigger] after.queue[i]).disposition is Received implies (
                    #[trigger] after.queue[j]).disposition is Received by {
                        let oi = if i < self.cursor {
                            i
                        } else {
                            i + 1
                        };
                        let oj = if j < self.cursor {
                            j
                        } else {
                            j + 1
                        };
                        assert(after.queue[i] == self.queue[oi]);
                        assert(after.queue[j] == self.queue[oj]);
                    }
                },
            }
        }
    }
}

/// The dispatcher of one driver: its queue of unanswered requests and the
/// state of its pass over them.
pub struct Dispatcher {
    queue: Vec<PendingRequest>,
    cursor: usize,
}

impl View for Dispatcher {
    type V = DispatcherView;

    closed spec fn view(&self) -> DispatcherView {
        DispatcherView { queue: self.queue@, cursor: self.cursor as nat }
    }
}

impl Dispatcher {
    /// The invariant of the dispatcher, stated on its view.
    pub open spec fn wf(&self) -> bool {
        self@.wf()
    }

    /// A dispatcher without requests.
    pub fn new() -> (d: Dispatcher)
        ensures
            d.wf(),
            d@ == DispatcherView::empty(),
    {
        Dispatcher { queue: Vec::new(), cursor: 0 }
    }

    /// The requests that were not answered yet, oldest first.
    pub fn pending(&self) -> (queue: &Vec<PendingRequest>)
        ensures
            queue@ == self@.queue,
    {
        &self.queue
    }

    /// Number of requests that were not answered yet.
    pub fn len(&self) -> (n: usize)
        ensures
            n == self@.queue.len(),
    {
        self.queue.len()
    }

    /// Whether the pass over the queue is over.
    pub fn is_idle(&self) -> (idle: bool)
        ensures
            idle == self@.idle(),
    {
        self.cursor >= self.queue.len()
    }

    /// Takes in a new request. It joins the queue as the youngest, and the
    /// pass starts again at the oldest request, so that every parked request
    /// is tried again, in the order of arrival, before the new one is tried
    /// for the first time.
    pub fn submit(&mut self, token: u64, target: Target)
        requires
            old(self).wf(),
        ensures
            final(self).wf(),
            final(self)@ == old(self)@.submit(token, target),
    {
        proof {
            self@.lemma_steps_wf(token, target, HandlerOutcome::WouldBlock);
        }
        self.queue.push(PendingRequest { token, target, disposition: Disposition::Received });
        self.cursor = 0;
    }

    /// Takes note of an interrupt that the device has claimed: the pass
    /// starts again at the oldest request, so that every parked request is
    /// tried again, in the order of arrival.
    pub fn on_interrupt(&mut self)
        requires
            old(self).wf(),
        ensures
            final(self).wf(),
            final(self)@ == old(self)@.on_interrupt(),
    {
        self.cursor = 0;
    }

    /// The request that the handler is to be asked about next, or `None`
    /// where the pass is over.
    pub fn next_attempt(&self) -> (request: Option<PendingRequest>)
        requires
            self.wf(),
        ensures
            request == self@.next_attempt(),
    {
        if self.cursor < self.queue.len() {
            Some(self.queue[self.cursor])
        } else {
            None
        }
    }

    /// Takes the handler's answer for the request that `next_attempt` gave
    /// out. A request that would block stays in the queue at its place,
    /// parked, and the pass moves on to the next younger request. Any other
    /// answer completes the request: it leaves the queue, the order of the
    /// others is kept, and the answer for the client is returned. Where the
    /// pass is over nothing changes and nothing is returned.
    pub fn resolve(&mut self, outcome: HandlerOutcome) -> (answer: Option<Completed>)
        requires
            old(self).wf(),
        ensures
            final(self).wf(),
            final(self)@ == old(self)@.resolve(outcome),
            answer == old(self)@.completion(outcome),
    {
        proof {
            self@.lemma_steps_wf(0, Target { slot: 0, endpoint: 0, tag: None }, outcome);
        }
        if self.cursor >= self.queue.len() {
            return None;
        }
        match outcome {
            HandlerOutcome::WouldBlock => {
                let request = self.queue[self.cursor];
                self.queue.set(
                    self.cursor,
                    PendingRequest {
                        token: request.token,
                        target: request.target,
                        disposition: Disposition::WouldBlock,
                    },
                );
                self.cursor = self.cursor + 1;
                None
            },
            HandlerOutcome::Done(value) => {
                let request = self.queue.remove(self.cursor);
                Some(Completed { token: request.token, result: Ok(value) })
            },
            HandlerOutcome::Failed(error) => {
                let request = self.queue.remove(self.cursor);
                Some(Completed { token: request.token, result: Err(error) })
            },
        }
    }

    /// Takes the result of a read from the client transport. A read of no
    /// bytes means that the transport is closed, and a failed read is fatal:
    /// both end the loop and leave the queue as it is. A transport with
    /// nothing to read leaves everything as it is. Any other read has
    /// brought the request that `token` and `target` describe, which is
    /// submitted.
    pub fn on_client_readable(&mut self, read: ReadResult, token: u64, target: Target) -> (next:
        LoopControl)
        requires
            old(self).wf(),
        ensures
            final(self).wf(),
            read matches ReadResult::Bytes(n) && n > 0 ==> next == LoopControl::Continue
                && final(self)@ == old(self)@.submit(token, target),
            read == ReadResult::Bytes(0) ==> next == LoopControl::Stop(
                StopReason::TransportClosed,
            ) && final(self)@ == old(self)@,
            read is NoData ==> next == LoopControl::Continue && final(self)@ == old(self)@,
            read is IoError ==> next == LoopControl::Stop(StopReason::TransportIoError)
                && final(self)@ == old(self)@,
    {
        match read {
            ReadResult::Bytes(n) => {
                if n == 0 {
                    LoopControl::Stop(StopReason::TransportClosed)
                } else {
                    self.submit(token, target);
                    LoopControl::Continue
                }
            },
            ReadResult::NoData => LoopControl::Continue,
            ReadResult::IoError => LoopControl::Stop(StopReason::TransportIoError),
        }
    }
}

} // verus!

//! The completion matcher: what a completion event says, and which pending
//! request it answers.

use crate::ring::Ring;
use crate::trb::Trb;
use crate::trb::TrbCompletionCode;
use crate::trb::TrbType;
use vstd::prelude::*;

verus! {

/// The class of a completion code.
#[derive(Clone, Copy, Debug, PartialEq, Eq, Structural)]
pub enum CompletionStatus {
    /// The work was done.
    Success,
    /// The device sent less data than the buffer holds; the rest of the
    /// buffer is reported as residual.
    ShortPacket,
    /// The endpoint stalled.
    Stall,
    /// A ring ran full, over or empty.
    RingFull,
    /// The command was aborted.
    Aborted,
    /// The endpoint or the command ring was stopped.
    Stopped,
    /// The slot or endpoint that the work was for is not enabled, as after
    /// the device has gone.
    DeviceRemoved,
    /// Any other code: the remaining defined codes and all reserved and
    /// vendor-defined ones.
    Other,
}

/// A completion that reports a failure, with the code as the hardware gave
/// it.
#[derive(Clone, Copy, Debug, PartialEq, Eq, Structural)]
pub struct HardwareCompletionError {
    pub code: u8,
}

/// Which kind of event reported a completion.
#[derive(Clone, Copy, Debug, PartialEq, Eq, Structural)]
pub enum CompletionSource {
    Transfer,
    Command,
}

/// The class of a completion code by its number.
pub open spec fn spec_classify(code: u8) -> CompletionStatus {
    match TrbCompletionCode::spec_from_code(code) {
        Some(TrbCompletionCode::Success) => CompletionStatus::Success,
        Some(TrbCompletionCode::ShortPacket) => CompletionStatus::ShortPacket,
        Some(TrbCompletionCode::Stall) => CompletionStatus::Stall,
        Some(TrbCompletionCode::RingUnderrun) => CompletionStatus::RingFull,
        Some(TrbCompletionCode::RingOverrun) => CompletionStatus::RingFull,
        Some(TrbCompletionCode::VfEventRingFull) => CompletionStatus::RingFull,
        Some(TrbCompletionCode::EventRingFull) => CompletionStatus::RingFull,
        Some(TrbCompletionCode::CommandAborted) => CompletionStatus::Aborted,
        Some(TrbCompletionCode::CommandRingStopped) => CompletionStatus::Stopped,
        Some(TrbCompletionCode::Stopped) => CompletionStatus::Stopped,
        Some(TrbCompletionCode::StoppedLengthInvalid) => CompletionStatus::Stopped,
        Some(TrbCompletionCode::StoppedShortPacket) => CompletionStatus::Stopped,
        Some(TrbCompletionCode::SlotNotEnabled) => CompletionStatus::DeviceRemoved,
        Some(TrbCompletionCode::EndpointNotEnabled) => CompletionStatus::DeviceRemoved,
        _ => CompletionStatus::Other,
    }
}

/// The class of a completion code by its number.
pub fn classify(code: u8) -> (status: CompletionStatus)
    ensures
        status == spec_classify(code),
        status is Success <==> code == 1,
        status is ShortPacket <==> code == 13,
        status is Stall <==> code == 6,
        status is RingFull <==> code == 14 || code == 15 || code == 16 || code == 21,
        status is Aborted <==> code == 25,
        status is Stopped <==> code == 24 || code == 26 || code == 27 || code == 28,
        status is DeviceRemoved <==> code == 11 || code == 12,
        code >= 37 ==> status is Other,
{
    match TrbCompletionCode::from_code(code) {
        Some(TrbCompletionCode::Success) => CompletionStatus::Success,
        Some(TrbCompletionCode::ShortPacket) => CompletionStatus::ShortPacket,
        Some(TrbCompletionCode::Stall) => CompletionStatus::Stall,
        Some(TrbCompletionCode::RingUnderrun) => CompletionStatus::RingFull,
        Some(TrbCompletionCode::RingOverrun) => CompletionStatus::RingFull,
        Some(TrbCompletionCode::VfEventRingFull) => CompletionStatus::RingFull,
        Some(TrbCompletionCode::EventRingFull) => CompletionStatus::RingFull,
        Some(TrbCompletionCode::CommandAborted) => CompletionStatus::Aborted,
        Some(TrbCompletionCode::CommandRingStopped) => CompletionStatus::Stopped,
        Some(TrbCompletionCode::Stopped) => CompletionStatus::Stopped,
        Some(TrbCompletionCode::StoppedLengthInvalid) => CompletionStatus::Stopped,
        Some(TrbCompletionCode::StoppedShortPacket) => CompletionStatus::Stopped,
        Some(TrbCompletionCode::SlotNotEnabled) => CompletionStatus::DeviceRemoved,
        Some(TrbCompletionCode::EndpointNotEnabled) => CompletionStatus::DeviceRemoved,
        _ => CompletionStatus::Other,
    }
}

/// What a completion event says.
#[derive(Clone, Copy, Debug, PartialEq, Eq, Structural)]
pub struct Completion {
    /// The kind of event that reported it.
    pub source: CompletionSource,
    /// The class of its completion code.
    pub status: CompletionStatus,
    /// The completion code as the hardware gave it.
    pub code: u8,
    /// The low 24 bits of the status word: for a transfer the count of bytes
    /// not transferred, for a command its completion parameter.
    pub residual: u32,
    /// The slot that the work was for.
    pub slot: u8,
    /// The endpoint that the work was for.
    pub endpoint: u8,
    /// The event-data value echoed from the work, where the event carries
    /// one.
    pub event_data: Option<u64>,
    /// The data word of the event.
    pub pointer: u64,
}

/// A decoded event record.
#[derive(Clone, Copy, Debug, PartialEq, Eq, Structural)]
pub enum Outcome {
    /// The record reports the completion of a transfer or of a command.
    Completed(Completion),
    /// The record is of another kind, whose tag is given; nothing else of it
    /// is read.
    NotCompletion { trb_type: u8 },
}

impl Completion {
    /// Whether the completion reports a failure: any class but success and
    /// short packet.
    pub open spec fn spec_is_failure(self) -> bool {
        !(self.status is Success || self.status is ShortPacket)
    }

    /// The residual of a completion that reports no failure, or the failure
    /// with its code.
    pub open spec fn spec_result(self) -> Result<u32, HardwareCompletionError> {
        if self.spec_is_failure() {
            Err(HardwareCompletionError { code: self.code })
        } else {
            Ok(self.residual)
        }
    }

    /// The residual of a completion that reports no failure, or the failure
    /// with its code.
    pub fn result(&self) -> (r: Result<u32, HardwareCompletionError>)
        ensures
            r == self.spec_result(),
    {
        match self.status {
            CompletionStatus::Success => Ok(self.residual),
            CompletionStatus::ShortPacket => Ok(self.residual),
            _ => Err(HardwareCompletionError { code: self.code }),
        }
    }
}

/// What a record says as an event: a completion where its kind is that of a
/// transfer event or of a command completion event, with the fields read
/// from their places in the status and control words.
pub open spec fn spec_decode(record: Trb) -> Outcome {
    let tag = record.spec_trb_type();
    if tag == TrbType::Transfer.spec_code() || tag == TrbType::CommandCompletion.spec_code() {
        Outcome::Completed(
            Completion {
                source: if tag == TrbType::Transfer.spec_code() {
                    CompletionSource::Transfer
                } else {
                    CompletionSource::Command
                },
                status: spec_classify(record.spec_completion_code()),
                code: record.spec_completion_code(),
                residual: record.spec_transfer_length(),
                slot: record.spec_event_slot(),
                endpoint: record.spec_endpoint_id(),
                event_data: record.spec_event_data(),
                pointer: record.data,
            },
        )
    } else {
        Outcome::NotCompletion { trb_type: tag }
    }
}

/// Decodes an event record. The kind is read first; the other words are
/// read only where the kind is that of a completion.
pub fn decode(record: &Trb) -> (outcome: Outcome)
    ensures
        outcome == spec_decode(*record),
        outcome is Completed <==> record.spec_trb_type() == 32 || record.spec_trb_type() == 33,
{
    let tag = record.trb_type();
    if tag == TrbType::Transfer.code() || tag == TrbType::CommandCompletion.code() {
        let code = record.completion_code();
        Outcome::Completed(
            Completion {
                source: if tag == TrbType::Transfer.code() {
                    CompletionSource::Transfer
                } else {
                    CompletionSource::Command
                },
                status: classify(code),
                code,
                residual: record.transfer_length(),
                slot: record.event_slot(),
                endpoint: record.endpoint_id(),
                event_data: record.event_data(),
                pointer: record.data,
            },
        )
    } else {
        Outcome::NotCompletion { trb_type: tag }
    }
}

/// What identifies the work that a request waits for: the slot and endpoint
/// it was issued to and, where the work carries one, the event-data value
/// that its completion echoes.
#[derive(Clone, Copy, Debug, PartialEq, Eq, Structural)]
pub struct Target {
    pub slot: u8,
    pub endpoint: u8,
    pub tag: Option<u64>,
}

/// Whether a request is new or has been tried before.
#[derive(Clone, Copy, Debug, PartialEq, Eq, Structural)]
pub enum Disposition {
    /// The request has arrived and has not been handed to the handler yet.
    Received,
    /// The handler was last asked and answered that the request would
    /// block: the request is parked.
    WouldBlock,
}

/// A request that has not been answered yet.
#[derive(Clone, Copy, Debug, PartialEq, Eq, Structural)]
pub struct PendingRequest {
    /// The caller's name for the request.
    pub token: u64,
    /// The work that the request waits for.
    pub target: Target,
    /// Whether the request was tried before.
    pub disposition: Disposition,
}

impl Target {
    /// Whether a completion is the one that this work produces: it names
    /// the same slot and endpoint and, where it echoes an event-data value,
    /// that value is the one the work carries.
    pub open spec fn spec_answered_by(self, completion: Completion) -> bool {
        &&& self.slot == completion.slot
        &&& self.endpoint == completion.endpoint
        &&& completion.event_data is Some ==> self.tag == completion.event_data
    }

    pub fn answered_by(&self, completion: &Completion) -> (yes: bool)
        ensures
            yes == self.spec_answered_by(*completion),
    {
        if self.slot != completion.slot || self.endpoint != completion.endpoint {
            return false;
        }
        match completion.event_data {
            Some(echoed) => match self.tag {
                Some(tag) => tag == echoed,
                None => false,
            },
            None => true,
        }
    }
}

/// Whether a decoded event answers a pending request.
pub open spec fn answers(outcome: Outcome, request: PendingRequest) -> bool {
    outcome matches Outcome::Completed(completion) && request.target.spec_answered_by(completion)
}

/// Finds the request that a decoded event answers: the oldest pending
/// request whose target the completion names. Returns its position in
/// `pending`, or `None` where the event is no completion or no pending
/// request matches it.
pub fn correlate_index(outcome: &Outcome, pending: &Vec<PendingRequest>) -> (found: Option<usize>)
    ensures
        found is Some ==> found->0 < pending@.len() && answers(*outcome, pending@[found->0 as int])
            && forall|j: int| 0 <= j < found->0 ==> !answers(*outcome, #[trigger] pending@[j]),
        found is None ==> forall|j: int|
            0 <= j < pending@.len() ==> !answers(*outcome, #[trigger] pending@[j]),
{
    match outcome {
        Outcome::Completed(completion) => {
            let mut i: usize = 0;
            while i < pending.len()
                invariant
                    i <= pending@.len(),
                    *outcome == Outcome::Completed(*completion),
                    forall|j: int| 0 <= j < i ==> !answers(*outcome, #[trigger] pending@[j]),
                decreases pending@.len() - i,
            {
                if pending[i].target.answered_by(completion) {
                    return Some(i);
                }
                i += 1;
            }
            None
        },
        Outcome::NotCompletion { .. } => None,
    }
}

/// Matches a decoded event to the request that it answers: the token of
/// the oldest pending request whose target the completion names, or `None`
/// where the event is no completion or no pending request matches it (a
/// spurious interrupt, or a completion for a request that was answered
/// already).
pub fn correlate(outcome: &Outcome, pending: &Vec<PendingRequest>) -> (token: Option<u64>)
    ensures
        token is Some <==> exists|i: int|
            0 <= i < pending@.len() && answers(*outcome, #[trigger] pending@[i]),
        token is Some ==> exists|i: int|
            0 <= i < pending@.len() && answers(*outcome, #[trigger] pending@[i]) && token->0
                == pending@[i].token && forall|j: int|
                0 <= j < i ==> !answers(*outcome, #[trigger] pending@[j]),
{
    match correlate_index(outcome, pending) {
        Some(i) => Some(pending[i].token),
        None => None,
    }
}

/// The events of a ring decoded in the order in which they leave it.
pub open spec fn spec_decode_all(records: Seq<Trb>) -> Seq<Outcome> {
    Seq::new(records.len(), |i: int| spec_decode(records[i]))
}

/// Drains an event ring: takes every record that was produced and decodes
/// it, in the order in which the records appear in the ring, and leaves the
/// ring empty.
pub fn drain(ring: &mut Ring) -> (outcomes: Vec<Outcome>)
    requires
        old(ring).wf(),
    ensures
        final(ring).wf(),
        outcomes@ =~= spec_decode_all(old(ring)@.pending()),
        final(ring)@.is_empty(),
        final(ring)@.pending() =~= Seq::<Trb>::empty(),
        final(ring)@.slots == old(ring)@.slots,
{
    let mut outcomes: Vec<Outcome> = Vec::new();
    let ghost all = ring@.pending();
    proof {
        ring@.lemma_len();
    }
    loop
        invariant
            ring.wf(),
            ring@.slots == old(ring)@.slots,
            outcomes@.len() + ring@.pending().len() == all.len(),
            ring@.pending() =~= all.skip(outcomes@.len() as int),
            forall|k: int| 0 <= k < outcomes@.len() ==> outcomes@[k] == spec_decode(all[k]),
        ensures
            ring.wf(),
            ring@.slots == old(ring)@.slots,
            ring@.is_empty(),
            outcomes@.len() == all.len(),
            forall|k: int| 0 <= k < outcomes@.len() ==> outcomes@[k] == spec_decode(all[k]),
        decreases ring@.pending().len(),
    {
        proof {
            ring@.lemma_len();
            if !ring@.is_empty() {
                ring@.lemma_dequeue();
            }
        }
        match ring.dequeue() {
            Some(record) => {
                outcomes.push(decode(&record));
            },
            None => {
                break ;
            },
        }
    }
    proof {
        ring@.lemma_len();
    }
    outcomes
}

} // verus!

//! Commands and transfers by kind: what a caller above the ring layer asks
//! for, with the fields of each kind under their names, and the packing of
//! each into a descriptor record.

use crate::context::StreamContextType;
use crate::ring::Ring;
use crate::ring::SlotHandle;
use crate::trb::TransferKind;
use crate::trb::Trb;
use crate::trb::TrbType;
use crate::usb::Setup;
use vstd::prelude::*;

verus! {

/// One command or transfer, with the fields of its kind.
#[derive(Clone, Copy, Debug, PartialEq, Eq)]
pub enum Descriptor {
    Reserved,
    Link { address: usize, toggle: bool },
    NoOpCmd,
    EnableSlot { slot_type: u8 },
    AddressDevice { slot_id: u8, input_ctx_ptr: usize, bsr: bool },
    ConfigureEndpoint { slot_id: u8, input_ctx_ptr: usize },
    EvaluateContext { slot_id: u8, input_ctx_ptr: usize, bsr: bool },
    ResetEndpoint { slot_id: u8, endp_num_xhc: u8, tsp: bool },
    SetTrDequeuePointer {
        deque_ptr: u64,
        sct: StreamContextType,
        stream_id: u16,
        endp_num_xhc: u8,
        slot: u8,
    },
    StopEndpoint { slot_id: u8, endp_num_xhc: u8, suspend: bool },
    ResetDevice { slot_id: u8 },
    TransferNoOp { interrupter: u8, ent: bool, ch: bool, ioc: bool },
    SetupStage { setup: Setup, transfer: TransferKind },
    DataStage { buffer: usize, length: u16, input: bool },
    StatusStage { input: bool },
    Normal {
        buffer: u64,
        len: u16,
        estimated_td_size: u8,
        interrupter: u8,
        ent: bool,
        isp: bool,
        chain: bool,
        ioc: bool,
        idt: bool,
        bei: bool,
    },
}

/// Why a descriptor was not accepted by a ring.
#[derive(Clone, Copy, Debug, PartialEq, Eq, Structural)]
pub enum EnqueueError {
    /// A field of the descriptor does not fit its place in the record.
    InvalidDescriptor,
    /// The ring has no free slot.
    RingFull,
}

impl Descriptor {
    /// The record kind that the descriptor is packed as.
    pub open spec fn kind(self) -> TrbType {
        match self {
            Descriptor::Reserved => TrbType::Reserved,
            Descriptor::Link { .. } => TrbType::Link,
            Descriptor::NoOpCmd => TrbType::NoOpCmd,
            Descriptor::EnableSlot { .. } => TrbType::EnableSlot,
            Descriptor::AddressDevice { .. } => TrbType::AddressDevice,
            Descriptor::ConfigureEndpoint { .. } => TrbType::ConfigureEndpoint,
            Descriptor::EvaluateContext { .. } => TrbType::EvaluateContext,
            Descriptor::ResetEndpoint { .. } => TrbType::ResetEndpoint,
            Descriptor::SetTrDequeuePointer { .. } => TrbType::SetTrDequeuePointer,
            Descriptor::StopEndpoint { .. } => TrbType::StopEndpoint,
            Descriptor::ResetDevice { .. } => TrbType::ResetDevice,
            Descriptor::TransferNoOp { .. } => TrbType::NoOp,
            Descriptor::SetupStage { .. } => TrbType::SetupStage,
            Descriptor::DataStage { .. } => TrbType::DataStage,
            Descriptor::StatusStage { .. } => TrbType::StatusStage,
            Descriptor::Normal { .. } => TrbType::Normal,
        }
    }

    /// Whether every field fits its place in the record: input contexts lie
    /// on 16-byte boundaries, endpoint numbers and estimated sizes fit five
    /// bits, and a dequeue pointer leaves bits 1 to 3 clear.
    pub open spec fn valid(self) -> bool {
        match self {
            Descriptor::AddressDevice { input_ctx_ptr, .. } => input_ctx_ptr % 16 == 0,
            Descriptor::ConfigureEndpoint { input_ctx_ptr, .. } => input_ctx_ptr % 16 == 0,
            Descriptor::EvaluateContext { input_ctx_ptr, .. } => input_ctx_ptr % 16 == 0,
            Descriptor::ResetEndpoint { endp_num_xhc, .. } => endp_num_xhc <= 0x1F,
            Descriptor::SetTrDequeuePointer { deque_ptr, endp_num_xhc, .. } => deque_ptr
                & 0xFFFF_FFFF_FFFF_FFF1 == deque_ptr && endp_num_xhc <= 0x1F,
            Descriptor::StopEndpoint { endp_num_xhc, .. } => endp_num_xhc <= 0x1F,
            Descriptor::Normal { estimated_td_size, .. } => estimated_td_size <= 0x1F,
            _ => true,
        }
    }

    /// The record that the descriptor is packed into.
    pub open spec fn spec_encode(self, cycle: bool) -> Trb {
        match self {
            Descriptor::Reserved => Trb::spec_reserved(cycle),
            Descriptor::Link { address, toggle } => Trb::spec_link(address, toggle, cycle),
            Descriptor::NoOpCmd => Trb::spec_no_op_cmd(cycle),
            Descriptor::EnableSlot { slot_type } => Trb::spec_enable_slot(slot_type, cycle),
            Descriptor::AddressDevice { slot_id, input_ctx_ptr, bsr } => Trb::spec_address_device(
                slot_id,
                input_ctx_ptr,
                bsr,
                cycle,
            ),
            Descriptor::ConfigureEndpoint {
                slot_id,
                input_ctx_ptr,
            } => Trb::spec_configure_endpoint(slot_id, input_ctx_ptr, cycle),
            Descriptor::EvaluateContext {
                slot_id,
                input_ctx_ptr,
                bsr,
            } => Trb::spec_evaluate_context(slot_id, input_ctx_ptr, bsr, cycle),
            Descriptor::ResetEndpoint { slot_id, endp_num_xhc, tsp } => Trb::spec_reset_endpoint(
                slot_id,
                endp_num_xhc,
                tsp,
                cycle,
            ),
            Descriptor::SetTrDequeuePointer {
                deque_ptr,
                sct,
                stream_id,
                endp_num_xhc,
                slot,
            } => Trb::spec_set_tr_deque_ptr(deque_ptr, cycle, sct, stream_id, endp_num_xhc, slot),
            Descriptor::StopEndpoint { slot_id, endp_num_xhc, suspend } => Trb::spec_stop_endpoint(
                slot_id,
                endp_num_xhc,
                suspend,
                cycle,
            ),
            Descriptor::ResetDevice { slot_id } => Trb::spec_reset_device(slot_id, cycle),
            Descriptor::TransferNoOp { interrupter, ent, ch, ioc } => Trb::spec_transfer_no_op(
                interrupter,
                ent,
                ch,
                ioc,
                cycle,
            ),
            Descriptor::SetupStage { setup, transfer } => Trb::spec_setup(setup, transfer, cycle),
            Descriptor::DataStage { buffer, length, input } => Trb::spec_data(
                buffer,
                length,
                input,
                cycle,
            ),
            Descriptor::StatusStage { input } => Trb::spec_status(input, cycle),
            Descriptor::Normal {
                buffer,
                len,
                estimated_td_size,
                interrupter,
                ent,
                isp,
                chain,
                ioc,
                idt,
                bei,
            } => Trb::spec_normal(
                buffer,
                len,
                cycle,
                estimated_td_size,
                interrupter,
                ent,
                isp,
                chain,
                ioc,
                idt,
                bei,
            ),
        }
    }

    /// Whether every field fits its place in the record.
    pub fn is_valid(&self) -> (ok: bool)
        ensures
            ok == self.valid(),
    {
        match *self {
            Descriptor::AddressDevice { input_ctx_ptr, .. } => input_ctx_ptr % 16 == 0,
            Descriptor::ConfigureEndpoint { input_ctx_ptr, .. } => input_ctx_ptr % 16 == 0,
            Descriptor::EvaluateContext { input_ctx_ptr, .. } => input_ctx_ptr % 16 == 0,
            Descriptor::ResetEndpoint { endp_num_xhc, .. } => endp_num_xhc <= 0x1F,
            Descriptor::SetTrDequeuePointer { deque_ptr, endp_num_xhc, .. } => deque_ptr
                & 0xFFFF_FFFF_FFFF_FFF1 == deque_ptr && endp_num_xhc <= 0x1F,
            Descriptor::StopEndpoint { endp_num_xhc, .. } => endp_num_xhc <= 0x1F,
            Descriptor::Normal { estimated_td_size, .. } => estimated_td_size <= 0x1F,
            _ => true,
        }
    }

    /// Packs the descriptor into a record with the given cycle bit. Returns
    /// `None` exactly where a field does not fit its place; otherwise the
    /// record is of the descriptor's kind and carries the cycle bit.
    pub fn encode(&self, cycle: bool) -> (record: Option<Trb>)
        ensures
            record is Some <==> self.valid(),
            record is Some ==> record->0 == self.spec_encode(cycle),
            record is Some ==> record->0.is_kind(self.kind(), cycle),
    {
        if !self.is_valid() {
            return None;
        }
        let mut trb = Trb { data: 0, status: 0, control: 0 };
        match *self {
            Descriptor::Reserved => trb.reserved(cycle),
            Descriptor::Link { address, toggle } => trb.link(address, toggle, cycle),
            Descriptor::NoOpCmd => trb.no_op_cmd(cycle),
            Descriptor::EnableSlot { slot_type } => trb.enable_slot(slot_type, cycle),
            Descriptor::AddressDevice { slot_id, input_ctx_ptr, bsr } => trb.address_device(
                slot_id,
                input_ctx_ptr,
                bsr,
                cycle,
            ),
            Descriptor::ConfigureEndpoint { slot_id, input_ctx_ptr } => trb.configure_endpoint(
                slot_id,
                input_ctx_ptr,
                cycle,
            ),
            Descriptor::EvaluateContext { slot_id, input_ctx_ptr, bsr } => trb.evaluate_context(
                slot_id,
                input_ctx_ptr,
                bsr,
                cycle,
            ),
            Descriptor::ResetEndpoint { slot_id, endp_num_xhc, tsp } => trb.reset_endpoint(
                slot_id,
                endp_num_xhc,
                tsp,
                cycle,
            ),
            Descriptor::SetTrDequeuePointer {
                deque_ptr,
                sct,
                stream_id,
                endp_num_xhc,
                slot,
            } => trb.set_tr_deque_ptr(deque_ptr, cycle, sct, stream_id, endp_num_xhc, slot),
            Descriptor::StopEndpoint { slot_id, endp_num_xhc, suspend } => trb.stop_endpoint(
                slot_id,
                endp_num_xhc,
                suspend,
                cycle,
            ),
            Descriptor::ResetDevice { slot_id } => trb.reset_device(slot_id, cycle),
            Descriptor::TransferNoOp { interrupter, ent, ch, ioc } => trb.transfer_no_op(
                interrupter,
                ent,
                ch,
                ioc,
                cycle,
            ),
            Descriptor::SetupStage { setup, transfer } => trb.setup(setup, transfer, cycle),
            Descriptor::DataStage { buffer, length, input } => trb.data(
                buffer,
                length,
                input,
                cycle,
            ),
            Descriptor::StatusStage { input } => trb.status(input, cycle),
            Descriptor::Normal {
                buffer,
                len,
                estimated_td_size,
                interrupter,
                ent,
                isp,
                chain,
                ioc,
                idt,
                bei,
            } => trb.normal(
                buffer,
                len,
                cycle,
                estimated_td_size,
                interrupter,
                ent,
                isp,
                chain,
                ioc,
                idt,
                bei,
            ),
        }
        Some(trb)
    }

    /// Packs the descriptor and hands it to the producer of a ring. A
    /// descriptor with a field that does not fit is refused, and so is any
    /// descriptor while the ring is full; the ring is then left as it was.
    /// Otherwise the ring holds, in the slot that the handle names, the
    /// descriptor packed with the producer's cycle bit.
    pub fn enqueue_on(&self, ring: &mut Ring) -> (result: Result<SlotHandle, EnqueueError>)
        requires
            old(ring).wf(),
        ensures
            final(ring).wf(),
            result == Err::<SlotHandle, EnqueueError>(EnqueueError::InvalidDescriptor)
                <==> !self.valid(),
            result == Err::<SlotHandle, EnqueueError>(EnqueueError::RingFull) <==> self.valid()
                && old(ring)@.is_full(),
            result is Err ==> final(ring)@ == old(ring)@,
            result is Ok ==> final(ring)@ == old(ring)@.enqueue(
                self.spec_encode(old(ring)@.enqueue_cycle()),
            ),
            result is Ok ==> final(ring)@.pending() == old(ring)@.pending().push(
                self.spec_encode(old(ring)@.enqueue_cycle()),
            ),
            result is Ok ==> result->Ok_0.index == old(ring)@.enqueue_slot() && result->Ok_0.cycle
                == old(ring)@.enqueue_cycle() && final(ring)@.slots[result->Ok_0.index as int]
                == self.spec_encode(old(ring)@.enqueue_cycle()),
    {
        let cycle = ring.enqueue_cycle();
        match self.encode(cycle) {
            None => Err(EnqueueError::InvalidDescriptor),
            Some(record) => {
                proof {
                    record.lemma_with_cycle(cycle);
                    if !ring@.is_full() {
                        ring@.lemma_enqueue(record);
                    }
                }
                match ring.enqueue(record) {
                    Ok(handle) => Ok(handle),
                    Err(_) => Err(EnqueueError::RingFull),
                }
            },
        }
    }
}

} // verus!

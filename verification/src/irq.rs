//! The interrupt bridge: what the driver does with a signal on its
//! interrupt line, step by step. The caller waits on the line, asks the
//! device and writes the acknowledgment; the bridge tells it which of these
//! comes next.

use vstd::prelude::*;

verus! {

/// Size of the record that a read from the interrupt line returns, in
/// bytes.
pub const IRQ_RECORD_BYTES: usize = 8;

/// Where the handling of an interrupt stands.
#[derive(Clone, Copy, Debug, PartialEq, Eq, Structural)]
pub enum IrqState {
    /// No interrupt is being handled.
    Idle,
    /// The line has signalled; the device was not asked yet whether the
    /// interrupt is its own.
    Signalled,
    /// The device has claimed the interrupt; its events were not drained
    /// yet.
    Claimed,
}

/// What the caller does next.
#[derive(Clone, Copy, Debug, PartialEq, Eq, Structural)]
pub enum IrqAction {
    /// Wait for the line to signal; send no acknowledgment.
    Wait,
    /// Ask the device whether it raised the interrupt.
    Claim,
    /// Drain the device's events.
    Drain,
    /// Write the acknowledgment to the line, which arms it again, and try
    /// the parked requests.
    Acknowledge,
}

/// The state after the line was read and the read returned `bytes_read`
/// bytes: a full record starts the handling of an interrupt.
pub open spec fn after_signal(state: IrqState, bytes_read: usize) -> IrqState {
    if state is Idle && bytes_read >= IRQ_RECORD_BYTES {
        IrqState::Signalled
    } else {
        state
    }
}

/// The state after the device has said whether the interrupt is its own.
pub open spec fn after_claim(state: IrqState, claimed: bool) -> IrqState {
    if state is Signalled {
        if claimed {
            IrqState::Claimed
        } else {
            IrqState::Idle
        }
    } else {
        state
    }
}

/// The state after the device's events were drained.
pub open spec fn after_drain(state: IrqState) -> IrqState {
    if state is Claimed {
        IrqState::Idle
    } else {
        state
    }
}

/// The bridge of one interrupt line.
pub struct InterruptBridge {
    state: IrqState,
}

impl View for InterruptBridge {
    type V = IrqState;

    closed spec fn view(&self) -> IrqState {
        self.state
    }
}

impl InterruptBridge {
    /// A bridge that handles no interrupt.
    pub fn new() -> (bridge: InterruptBridge)
        ensures
            bridge@ is Idle,
    {
        InterruptBridge { state: IrqState::Idle }
    }

    /// Where the handling of an interrupt stands.
    pub fn state(&self) -> (state: IrqState)
        ensures
            state == self@,
    {
        self.state
    }

    /// The line was read. A full record, read while no interrupt is being
    /// handled, starts the handling: the device is to be asked next. A
    /// shorter read, or a read in any other state, changes nothing.
    pub fn on_signal(&mut self, bytes_read: usize) -> (action: IrqAction)
        ensures
            final(self)@ == after_signal(old(self)@, bytes_read),
            action == if old(self)@ is Idle && bytes_read >= IRQ_RECORD_BYTES {
                IrqAction::Claim
            } else {
                IrqAction::Wait
            },
    {
        match self.state {
            IrqState::Idle => {
                if bytes_read >= IRQ_RECORD_BYTES {
                    self.state = IrqState::Signalled;
                    IrqAction::Claim
                } else {
                    IrqAction::Wait
                }
            },
            _ => IrqAction::Wait,
        }
    }

    /// The device was asked. Where it claims the interrupt its events are
    /// drained next; where it does not, the interrupt was another device's:
    /// nothing is acknowledged and nothing is tried again. In any state but
    /// that of a signal without an answer, nothing changes.
    pub fn on_claim(&mut self, claimed: bool) -> (action: IrqAction)
        ensures
            final(self)@ == after_claim(old(self)@, claimed),
            action == if old(self)@ is Signalled && claimed {
                IrqAction::Drain
            } else {
                IrqAction::Wait
            },
    {
        match self.state {
            IrqState::Signalled => {
                if claimed {
                    self.state = IrqState::Claimed;
                    IrqAction::Drain
                } else {
                    self.state = IrqState::Idle;
                    IrqAction::Wait
                }
            },
            _ => IrqAction::Wait,
        }
    }

    /// The events were drained. The acknowledgment is due now, and only
    /// now: after the device has claimed the interrupt and after its events
    /// were drained. In any other state nothing changes and nothing is
    /// acknowledged.
    pub fn on_drained(&mut self) -> (action: IrqAction)
        ensures
            final(self)@ == after_drain(old(self)@),
            action == if old(self)@ is Claimed {
                IrqAction::Acknowledge
            } else {
                IrqAction::Wait
            },
    {
        match self.state {
            IrqState::Claimed => {
                self.state = IrqState::Idle;
                IrqAction::Acknowledge
            },
            _ => IrqAction::Wait,
        }
    }
}

} // verus!

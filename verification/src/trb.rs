//! The descriptor record: one 16-byte command, transfer or event entry of a
//! descriptor ring, with the packing and unpacking of its status and control
//! words.

use crate::context::StreamContextType;
use crate::usb::Setup;
use vstd::prelude::*;

verus! {

/// The kind of a descriptor record, in the order of its six-bit tag.
#[derive(Clone, Copy, Debug, PartialEq, Eq, Structural)]
pub enum TrbType {
    Reserved,
    /* Transfer */
    Normal,
    SetupStage,
    DataStage,
    StatusStage,
    Isoch,
    Link,
    EventData,
    NoOp,
    /* Command */
    EnableSlot,
    DisableSlot,
    AddressDevice,
    ConfigureEndpoint,
    EvaluateContext,
    ResetEndpoint,
    StopEndpoint,
    SetTrDequeuePointer,
    ResetDevice,
    ForceEvent,
    NegotiateBandwidth,
    SetLatencyToleranceValue,
    GetPortBandwidth,
    ForceHeader,
    NoOpCmd,
    /* Reserved */
    Rsv24,
    Rsv25,
    Rsv26,
    Rsv27,
    Rsv28,
    Rsv29,
    Rsv30,
    Rsv31,
    /* Events */
    Transfer,
    CommandCompletion,
    PortStatusChange,
    BandwidthRequest,
    Doorbell,
    HostController,
    DeviceNotification,
    MfindexWrap,
    /* Reserved from 40 to 47, vendor defined from 48 to 63 */
}

/// The completion code of an event record, in the order of its number.
#[derive(Clone, Copy, Debug, PartialEq, Eq, Structural)]
pub enum TrbCompletionCode {
    Invalid,
    Success,
    DataBuffer,
    BabbleDetected,
    UsbTransaction,
    Trb,
    Stall,
    Resource,
    Bandwidth,
    NoSlotsAvailable,
    InvalidStreamType,
    SlotNotEnabled,
    EndpointNotEnabled,
    ShortPacket,
    RingUnderrun,
    RingOverrun,
    VfEventRingFull,
    Parameter,
    BandwidthOverrun,
    ContextState,
    NoPingResponse,
    EventRingFull,
    IncompatibleDevice,
    MissedService,
    CommandRingStopped,
    CommandAborted,
    Stopped,
    StoppedLengthInvalid,
    StoppedShortPacket,
    MaxExitLatencyTooLarge,
    Rsv30,
    IsochBuffer,
    EventLost,
    Undefined,
    InvalidStreamId,
    SecondaryBandwidth,
    SplitTransaction,
    /* Values from 37 to 191 are reserved */
    /* 192 to 223 are vendor defined errors */
    /* 224 to 255 are vendor defined information */
}

/// The direction of the data stage that follows a setup stage.
#[derive(Clone, Copy, Debug, PartialEq, Eq, Structural)]
pub enum TransferKind {
    NoData,
    Reserved,
    Out,
    In,
}

impl TransferKind {
    /// The two-bit encoding of the direction.
    pub open spec fn spec_code(self) -> u8 {
        match self {
            TransferKind::NoData => 0,
            TransferKind::Reserved => 1,
            TransferKind::Out => 2,
            TransferKind::In => 3,
        }
    }

    /// The two-bit encoding of the direction.
    pub fn code(&self) -> (c: u8)
        ensures
            c == self.spec_code(),
            c < 4,
    {
        match self {
            TransferKind::NoData => 0,
            TransferKind::Reserved => 1,
            TransferKind::Out => 2,
            TransferKind::In => 3,
        }
    }
}

impl TrbType {
    /// The six-bit tag that the control word carries for this kind.
    pub open spec fn spec_code(self) -> u8 {
        match self {
            TrbType::Reserved => 0,
            TrbType::Normal => 1,
            TrbType::SetupStage => 2,
            TrbType::DataStage => 3,
            TrbType::StatusStage => 4,
            TrbType::Isoch => 5,
            TrbType::Link => 6,
            TrbType::EventData => 7,
            TrbType::NoOp => 8,
            TrbType::EnableSlot => 9,
            TrbType::DisableSlot => 10,
            TrbType::AddressDevice => 11,
            TrbType::ConfigureEndpoint => 12,
            TrbType::EvaluateContext => 13,
            TrbType::ResetEndpoint => 14,
            TrbType::StopEndpoint => 15,
            TrbType::SetTrDequeuePointer => 16,
            TrbType::ResetDevice => 17,
            TrbType::ForceEvent => 18,
            TrbType::NegotiateBandwidth => 19,
            TrbType::SetLatencyToleranceValue => 20,
            TrbType::GetPortBandwidth => 21,
            TrbType::ForceHeader => 22,
            TrbType::NoOpCmd => 23,
            TrbType::Rsv24 => 24,
            TrbType::Rsv25 => 25,
            TrbType::Rsv26 => 26,
            TrbType::Rsv27 => 27,
            TrbType::Rsv28 => 28,
            TrbType::Rsv29 => 29,
            TrbType::Rsv30 => 30,
            TrbType::Rsv31 => 31,
            TrbType::Transfer => 32,
            TrbType::CommandCompletion => 33,
            TrbType::PortStatusChange => 34,
            TrbType::BandwidthRequest => 35,
            TrbType::Doorbell => 36,
            TrbType::HostController => 37,
            TrbType::DeviceNotification => 38,
            TrbType::MfindexWrap => 39,
        }
    }

    /// The kind that a six-bit tag names, if it names one.
    pub open spec fn spec_from_code(code: u8) -> Option<TrbType> {
        if code == 0 {
            Some(TrbType::Reserved)
        } else if code == 1 {
            Some(TrbType::Normal)
        } else if code == 2 {
            Some(TrbType::SetupStage)
        } else if code == 3 {
            Some(TrbType::DataStage)
        } else if code == 4 {
            Some(TrbType::StatusStage)
        } else if code == 5 {
            Some(TrbType::Isoch)
        } else if code == 6 {
            Some(TrbType::Link)
        } else if code == 7 {
            Some(TrbType::EventData)
        } else if code == 8 {
            Some(TrbType::NoOp)
        } else if code == 9 {
            Some(TrbType::EnableSlot)
        } else if code == 10 {
            Some(TrbType::DisableSlot)
        } else if code == 11 {
            Some(TrbType::AddressDevice)
        } else if code == 12 {
            Some(TrbType::ConfigureEndpoint)
        } else if code == 13 {
            Some(TrbType::EvaluateContext)
        } else if code == 14 {
            Some(TrbType::ResetEndpoint)
        } else if code == 15 {
            Some(TrbType::StopEndpoint)
        } else if code == 16 {
            Some(TrbType::SetTrDequeuePointer)
        } else if code == 17 {
            Some(TrbType::ResetDevice)
        } else if code == 18 {
            Some(TrbType::ForceEvent)
        } else if code == 19 {
            Some(TrbType::NegotiateBandwidth)
        } else if code == 20 {
            Some(TrbType::SetLatencyToleranceValue)
        } else if code == 21 {
            Some(TrbType::GetPortBandwidth)
        } else if code == 22 {
            Some(TrbType::ForceHeader)
        } else if code == 23 {
            Some(TrbType::NoOpCmd)
        } else if code == 24 {
            Some(TrbType::Rsv24)
        } else if code == 25 {
            Some(TrbType::Rsv25)
        } else if code == 26 {
            Some(TrbType::Rsv26)
        } else if code == 27 {
            Some(TrbType::Rsv27)
        } else if code == 28 {
            Some(TrbType::Rsv28)
        } else if code == 29 {
            Some(TrbType::Rsv29)
        } else if code == 30 {
            Some(TrbType::Rsv30)
        } else if code == 31 {
            Some(TrbType::Rsv31)
        } else if code == 32 {
            Some(TrbType::Transfer)
        } else if code == 33 {
            Some(TrbType::CommandCompletion)
        } else if code == 34 {
            Some(TrbType::PortStatusChange)
        } else if code == 35 {
            Some(TrbType::BandwidthRequest)
        } else if code == 36 {
            Some(TrbType::Doorbell)
        } else if code == 37 {
            Some(TrbType::HostController)
        } else if code == 38 {
            Some(TrbType::DeviceNotification)
        } else if code == 39 {
            Some(TrbType::MfindexWrap)
        } else {
            None
        }
    }

    /// The six-bit tag that the control word carries for this kind.
    pub fn code(&self) -> (c: u8)
        ensures
            c == self.spec_code(),
            c < 40,
    {
        match self {
            TrbType::Reserved => 0,
            TrbType::Normal => 1,
            TrbType::SetupStage => 2,
            TrbType::DataStage => 3,
            TrbType::StatusStage => 4,
            TrbType::Isoch => 5,
            TrbType::Link => 6,
            TrbType::EventData => 7,
            TrbType::NoOp => 8,
            TrbType::EnableSlot => 9,
            TrbType::DisableSlot => 10,
            TrbType::AddressDevice => 11,
            TrbType::ConfigureEndpoint => 12,
            TrbType::EvaluateContext => 13,
            TrbType::ResetEndpoint => 14,
            TrbType::StopEndpoint => 15,
            TrbType::SetTrDequeuePointer => 16,
            TrbType::ResetDevice => 17,
            TrbType::ForceEvent => 18,
            TrbType::NegotiateBandwidth => 19,
            TrbType::SetLatencyToleranceValue => 20,
            TrbType::GetPortBandwidth => 21,
            TrbType::ForceHeader => 22,
            TrbType::NoOpCmd => 23,
            TrbType::Rsv24 => 24,
            TrbType::Rsv25 => 25,
            TrbType::Rsv26 => 26,
            TrbType::Rsv27 => 27,
            TrbType::Rsv28 => 28,
            TrbType::Rsv29 => 29,
            TrbType::Rsv30 => 30,
            TrbType::Rsv31 => 31,
            TrbType::Transfer => 32,
            TrbType::CommandCompletion => 33,
            TrbType::PortStatusChange => 34,
            TrbType::BandwidthRequest => 35,
            TrbType::Doorbell => 36,
            TrbType::HostController => 37,
            TrbType::DeviceNotification => 38,
            TrbType::MfindexWrap => 39,
        }
    }

    /// The kind that a six-bit tag names; `None` for the tags from 40 on,
    /// which are reserved or left to vendors.
    pub fn from_code(code: u8) -> (kind: Option<TrbType>)
        ensures
            kind == TrbType::spec_from_code(code),
            kind is Some <==> code < 40,
            kind is Some ==> kind->0.spec_code() == code,
    {
        if code == 0 {
            Some(TrbType::Reserved)
        } else if code == 1 {
            Some(TrbType::Normal)
        } else if code == 2 {
            Some(TrbType::SetupStage)
        } else if code == 3 {
            Some(TrbType::DataStage)
        } else if code == 4 {
            Some(TrbType::StatusStage)
        } else if code == 5 {
            Some(TrbType::Isoch)
        } else if code == 6 {
            Some(TrbType::Link)
        } else if code == 7 {
            Some(TrbType::EventData)
        } else if code == 8 {
            Some(TrbType::NoOp)
        } else if code == 9 {
            Some(TrbType::EnableSlot)
        } else if code == 10 {
            Some(TrbType::DisableSlot)
        } else if code == 11 {
            Some(TrbType::AddressDevice)
        } else if code == 12 {
            Some(TrbType::ConfigureEndpoint)
        } else if code == 13 {
            Some(TrbType::EvaluateContext)
        } else if code == 14 {
            Some(TrbType::ResetEndpoint)
        } else if code == 15 {
            Some(TrbType::StopEndpoint)
        } else if code == 16 {
            Some(TrbType::SetTrDequeuePointer)
        } else if code == 17 {
            Some(TrbType::ResetDevice)
        } else if code == 18 {
            Some(TrbType::ForceEvent)
        } else if code == 19 {
            Some(TrbType::NegotiateBandwidth)
        } else if code == 20 {
            Some(TrbType::SetLatencyToleranceValue)
        } else if code == 21 {
            Some(TrbType::GetPortBandwidth)
        } else if code == 22 {
            Some(TrbType::ForceHeader)
        } else if code == 23 {
            Some(TrbType::NoOpCmd)
        } else if code == 24 {
            Some(TrbType::Rsv24)
        } else if code == 25 {
            Some(TrbType::Rsv25)
        } else if code == 26 {
            Some(TrbType::Rsv26)
        } else if code == 27 {
            Some(TrbType::Rsv27)
        } else if code == 28 {
            Some(TrbType::Rsv28)
        } else if code == 29 {
            Some(TrbType::Rsv29)
        } else if code == 30 {
            Some(TrbType::Rsv30)
        } else if code == 31 {
            Some(TrbType::Rsv31)
        } else if code == 32 {
            Some(TrbType::Transfer)
        } else if code == 33 {
            Some(TrbType::CommandCompletion)
        } else if code == 34 {
            Some(TrbType::PortStatusChange)
        } else if code == 35 {
            Some(TrbType::BandwidthRequest)
        } else if code == 36 {
            Some(TrbType::Doorbell)
        } else if code == 37 {
            Some(TrbType::HostController)
        } else if code == 38 {
            Some(TrbType::DeviceNotification)
        } else if code == 39 {
            Some(TrbType::MfindexWrap)
        } else {
            None
        }
    }
}

impl TrbCompletionCode {
    /// The number that the hardware reports for this code.
    pub open spec fn spec_code(self) -> u8 {
        match self {
            TrbCompletionCode::Invalid => 0,
            TrbCompletionCode::Success => 1,
            TrbCompletionCode::DataBuffer => 2,
            TrbCompletionCode::BabbleDetected => 3,
            TrbCompletionCode::UsbTransaction => 4,
            TrbCompletionCode::Trb => 5,
            TrbCompletionCode::Stall => 6,
            TrbCompletionCode::Resource => 7,
            TrbCompletionCode::Bandwidth => 8,
            TrbCompletionCode::NoSlotsAvailable => 9,
            TrbCompletionCode::InvalidStreamType => 10,
            TrbCompletionCode::SlotNotEnabled => 11,
            TrbCompletionCode::EndpointNotEnabled => 12,
            TrbCompletionCode::ShortPacket => 13,
            TrbCompletionCode::RingUnderrun => 14,
            TrbCompletionCode::RingOverrun => 15,
            TrbCompletionCode::VfEventRingFull => 16,
            TrbCompletionCode::Parameter => 17,
            TrbCompletionCode::BandwidthOverrun => 18,
            TrbCompletionCode::ContextState => 19,
            TrbCompletionCode::NoPingResponse => 20,
            TrbCompletionCode::EventRingFull => 21,
            TrbCompletionCode::IncompatibleDevice => 22,
            TrbCompletionCode::MissedService => 23,
            TrbCompletionCode::CommandRingStopped => 24,
            TrbCompletionCode::CommandAborted => 25,
            TrbCompletionCode::Stopped => 26,
            TrbCompletionCode::StoppedLengthInvalid => 27,
            TrbCompletionCode::StoppedShortPacket => 28,
            TrbCompletionCode::MaxExitLatencyTooLarge => 29,
            TrbCompletionCode::Rsv30 => 30,
            TrbCompletionCode::IsochBuffer => 31,
            TrbCompletionCode::EventLost => 32,
            TrbCompletionCode::Undefined => 33,
            TrbCompletionCode::InvalidStreamId => 34,
            TrbCompletionCode::SecondaryBandwidth => 35,
            TrbCompletionCode::SplitTransaction => 36,
        }
    }

    /// The code that a reported number names, if it names one.
    pub open spec fn spec_from_code(code: u8) -> Option<TrbCompletionCode> {
        if code == 0 {
            Some(TrbCompletionCode::Invalid)
        } else if code == 1 {
            Some(TrbCompletionCode::Success)
        } else if code == 2 {
            Some(TrbCompletionCode::DataBuffer)
        } else if code == 3 {
            Some(TrbCompletionCode::BabbleDetected)
        } else if code == 4 {
            Some(TrbCompletionCode::UsbTransaction)
        } else if code == 5 {
            Some(TrbCompletionCode::Trb)
        } else if code == 6 {
            Some(TrbCompletionCode::Stall)
        } else if code == 7 {
            Some(TrbCompletionCode::Resource)
        } else if code == 8 {
            Some(TrbCompletionCode::Bandwidth)
        } else if code == 9 {
            Some(TrbCompletionCode::NoSlotsAvailable)
        } else if code == 10 {
            Some(TrbCompletionCode::InvalidStreamType)
        } else if code == 11 {
            Some(TrbCompletionCode::SlotNotEnabled)
        } else if code == 12 {
            Some(TrbCompletionCode::EndpointNotEnabled)
        } else if code == 13 {
            Some(TrbCompletionCode::ShortPacket)
        } else if code == 14 {
            Some(TrbCompletionCode::RingUnderrun)
        } else if code == 15 {
            Some(TrbCompletionCode::RingOverrun)
        } else if code == 16 {
            Some(TrbCompletionCode::VfEventRingFull)
        } else if code == 17 {
            Some(TrbCompletionCode::Parameter)
        } else if code == 18 {
            Some(TrbCompletionCode::BandwidthOverrun)
        } else if code == 19 {
            Some(TrbCompletionCode::ContextState)
        } else if code == 20 {
            Some(TrbCompletionCode::NoPingResponse)
        } else if code == 21 {
            Some(TrbCompletionCode::EventRingFull)
        } else if code == 22 {
            Some(TrbCompletionCode::IncompatibleDevice)
        } else if code == 23 {
            Some(TrbCompletionCode::MissedService)
        } else if code == 24 {
            Some(TrbCompletionCode::CommandRingStopped)
        } else if code == 25 {
            Some(TrbCompletionCode::CommandAborted)
        } else if code == 26 {
            Some(TrbCompletionCode::Stopped)
        } else if code == 27 {
            Some(TrbCompletionCode::StoppedLengthInvalid)
        } else if code == 28 {
            Some(TrbCompletionCode::StoppedShortPacket)
        } else if code == 29 {
            Some(TrbCompletionCode::MaxExitLatencyTooLarge)
        } else if code == 30 {
            Some(TrbCompletionCode::Rsv30)
        } else if code == 31 {
            Some(TrbCompletionCode::IsochBuffer)
        } else if code == 32 {
            Some(TrbCompletionCode::EventLost)
        } else if code == 33 {
            Some(TrbCompletionCode::Undefined)
        } else if code == 34 {
            Some(TrbCompletionCode::InvalidStreamId)
        } else if code == 35 {
            Some(TrbCompletionCode::SecondaryBandwidth)
        } else if code == 36 {
            Some(TrbCompletionCode::SplitTransaction)
        } else {
            None
        }
    }

    /// The number that the hardware reports for this code.
    pub fn code(&self) -> (c: u8)
        ensures
            c == self.spec_code(),
            c < 37,
    {
        match self {
            TrbCompletionCode::Invalid => 0,
            TrbCompletionCode::Success => 1,
            TrbCompletionCode::DataBuffer => 2,
            TrbCompletionCode::BabbleDetected => 3,
            TrbCompletionCode::UsbTransaction => 4,
            TrbCompletionCode::Trb => 5,
            TrbCompletionCode::Stall => 6,
            TrbCompletionCode::Resource => 7,
            TrbCompletionCode::Bandwidth => 8,
            TrbCompletionCode::NoSlotsAvailable => 9,
            TrbCompletionCode::InvalidStreamType => 10,
            TrbCompletionCode::SlotNotEnabled => 11,
            TrbCompletionCode::EndpointNotEnabled => 12,
            TrbCompletionCode::ShortPacket => 13,
            TrbCompletionCode::RingUnderrun => 14,
            TrbCompletionCode::RingOverrun => 15,
            TrbCompletionCode::VfEventRingFull => 16,
            TrbCompletionCode::Parameter => 17,
            TrbCompletionCode::BandwidthOverrun => 18,
            TrbCompletionCode::ContextState => 19,
            TrbCompletionCode::NoPingResponse => 20,
            TrbCompletionCode::EventRingFull => 21,
            TrbCompletionCode::IncompatibleDevice => 22,
            TrbCompletionCode::MissedService => 23,
            TrbCompletionCode::CommandRingStopped => 24,
            TrbCompletionCode::CommandAborted => 25,
            TrbCompletionCode::Stopped => 26,
            TrbCompletionCode::StoppedLengthInvalid => 27,
            TrbCompletionCode::StoppedShortPacket => 28,
            TrbCompletionCode::MaxExitLatencyTooLarge => 29,
            TrbCompletionCode::Rsv30 => 30,
            TrbCompletionCode::IsochBuffer => 31,
            TrbCompletionCode::EventLost => 32,
            TrbCompletionCode::Undefined => 33,
            TrbCompletionCode::InvalidStreamId => 34,
            TrbCompletionCode::SecondaryBandwidth => 35,
            TrbCompletionCode::SplitTransaction => 36,
        }
    }

    /// The code that a reported number names; `None` for the numbers from
    /// 37 on, which are reserved or left to vendors.
    pub fn from_code(code: u8) -> (kind: Option<TrbCompletionCode>)
        ensures
            kind == TrbCompletionCode::spec_from_code(code),
            kind is Some <==> code < 37,
            kind is Some ==> kind->0.spec_code() == code,
    {
        if code == 0 {
            Some(TrbCompletionCode::Invalid)
        } else if code == 1 {
            Some(TrbCompletionCode::Success)
        } else if code == 2 {
            Some(TrbCompletionCode::DataBuffer)
        } else if code == 3 {
            Some(TrbCompletionCode::BabbleDetected)
        } else if code == 4 {
            Some(TrbCompletionCode::UsbTransaction)
        } else if code == 5 {
            Some(TrbCompletionCode::Trb)
        } else if code == 6 {
            Some(TrbCompletionCode::Stall)
        } else if code == 7 {
            Some(TrbCompletionCode::Resource)
        } else if code == 8 {
            Some(TrbCompletionCode::Bandwidth)
        } else if code == 9 {
            Some(TrbCompletionCode::NoSlotsAvailable)
        } else if code == 10 {
            Some(TrbCompletionCode::InvalidStreamType)
        } else if code == 11 {
            Some(TrbCompletionCode::SlotNotEnabled)
        } else if code == 12 {
            Some(TrbCompletionCode::EndpointNotEnabled)
        } else if code == 13 {
            Some(TrbCompletionCode::ShortPacket)
        } else if code == 14 {
            Some(TrbCompletionCode::RingUnderrun)
        } else if code == 15 {
            Some(TrbCompletionCode::RingOverrun)
        } else if code == 16 {
            Some(TrbCompletionCode::VfEventRingFull)
        } else if code == 17 {
            Some(TrbCompletionCode::Parameter)
        } else if code == 18 {
            Some(TrbCompletionCode::BandwidthOverrun)
        } else if code == 19 {
            Some(TrbCompletionCode::ContextState)
        } else if code == 20 {
            Some(TrbCompletionCode::NoPingResponse)
        } else if code == 21 {
            Some(TrbCompletionCode::EventRingFull)
        } else if code == 22 {
            Some(TrbCompletionCode::IncompatibleDevice)
        } else if code == 23 {
            Some(TrbCompletionCode::MissedService)
        } else if code == 24 {
            Some(TrbCompletionCode::CommandRingStopped)
        } else if code == 25 {
            Some(TrbCompletionCode::CommandAborted)
        } else if code == 26 {
            Some(TrbCompletionCode::Stopped)
        } else if code == 27 {
            Some(TrbCompletionCode::StoppedLengthInvalid)
        } else if code == 28 {
            Some(TrbCompletionCode::StoppedShortPacket)
        } else if code == 29 {
            Some(TrbCompletionCode::MaxExitLatencyTooLarge)
        } else if code == 30 {
            Some(TrbCompletionCode::Rsv30)
        } else if code == 31 {
            Some(TrbCompletionCode::IsochBuffer)
        } else if code == 32 {
            Some(TrbCompletionCode::EventLost)
        } else if code == 33 {
            Some(TrbCompletionCode::Undefined)
        } else if code == 34 {
            Some(TrbCompletionCode::InvalidStreamId)
        } else if code == 35 {
            Some(TrbCompletionCode::SecondaryBandwidth)
        } else if code == 36 {
            Some(TrbCompletionCode::SplitTransaction)
        } else {
            None
        }
    }
}

/// Place of the completion code in the status word of an event.
pub const TRB_STATUS_COMPLETION_CODE_SHIFT: u8 = 24;

/// Bits of the completion code in the status word of an event.
pub const TRB_STATUS_COMPLETION_CODE_MASK: u32 = 0xFF00_0000;

/// Place of the completion parameter in the status word of an event.
pub const TRB_STATUS_COMPLETION_PARAM_SHIFT: u8 = 0;

/// Bits of the completion parameter in the status word of an event.
pub const TRB_STATUS_COMPLETION_PARAM_MASK: u32 = 0x00FF_FFFF;

/// Place of the transfer length in the status word of a transfer event.
pub const TRB_STATUS_TRANSFER_LENGTH_SHIFT: u8 = 0;

/// Bits of the transfer length in the status word of a transfer event.
pub const TRB_STATUS_TRANSFER_LENGTH_MASK: u32 = 0x00FF_FFFF;

/// Place of the kind tag in the control word.
pub const TRB_CONTROL_TRB_TYPE_SHIFT: u8 = 10;

/// Bits of the kind tag in the control word.
pub const TRB_CONTROL_TRB_TYPE_MASK: u32 = 0x0000_FC00;

/// Place of the event-data flag in the control word.
pub const TRB_CONTROL_EVENT_DATA_SHIFT: u8 = 2;

/// The event-data flag in the control word.
pub const TRB_CONTROL_EVENT_DATA_BIT: u32 = 0x0000_0004;

/// Bits of the endpoint in the control word.
pub const TRB_CONTROL_ENDPOINT_ID_MASK: u32 = 0x001F_0000;

/// Place of the endpoint in the control word.
pub const TRB_CONTROL_ENDPOINT_ID_SHIFT: u8 = 16;

/// A flag as a one-bit field.
pub open spec fn bit(flag: bool) -> u32 {
    if flag {
        1u32
    } else {
        0u32
    }
}

/// The tag of a record kind at its place in the control word.
pub open spec fn type_field(kind: TrbType) -> u32 {
    (kind.spec_code() as u32) << 10
}

/// The upper-case hexadecimal digit of a value below sixteen.
pub open spec fn hex_digit(d: int) -> char {
    seq![
        '0', '1', '2', '3', '4', '5', '6', '7', '8', '9', 'A', 'B', 'C', 'D', 'E', 'F',
    ][d]
}

/// The last `width` upper-case hexadecimal digits of a value, padded with
/// zeros on the left.
pub open spec fn hex_upper(value: nat, width: nat) -> Seq<char>
    decreases width,
{
    if width == 0 {
        Seq::<char>::empty()
    } else {
        hex_upper(value / 16, (width - 1) as nat).push(hex_digit((value % 16) as int))
    }
}

/// A descriptor record as plain values: the data word, the status word and
/// the control word. The control word carries the cycle bit in bit 0 and the
/// record kind in bits 10 to 15; what the other bits and the two other words
/// mean depends on the kind.
#[derive(Clone, Copy, Debug, PartialEq, Eq, Structural)]
pub struct Trb {
    pub data: u64,
    pub status: u32,
    pub control: u32,
}

/// A flag as a one-bit field.
fn flag_bit(flag: bool) -> (b: u32)
    ensures
        b == bit(flag),
        b <= 1,
{
    if flag {
        1
    } else {
        0
    }
}

/// The tag of a record kind at its place in the control word.
fn type_field_of(kind: TrbType) -> (t: u32)
    ensures
        t == type_field(kind),
        t == (kind.spec_code() as u32) * 1024,
{
    let code: u32 = kind.code() as u32;
    assert(code << 10 == code * 1024) by (bit_vector)
        requires
            code < 64,
    ;
    code << 10
}

impl Trb {
    /// The completion code of an event record: the top byte of the status
    /// word.
    pub open spec fn spec_completion_code(self) -> u8 {
        (self.status >> 24) as u8
    }

    /// The completion parameter of an event record: the low 24 bits of the
    /// status word.
    pub open spec fn spec_completion_param(self) -> u32 {
        self.status & 0x00FF_FFFF
    }

    /// The slot that an event record names: the top byte of the control
    /// word.
    pub open spec fn spec_event_slot(self) -> u8 {
        (self.control >> 24) as u8
    }

    /// The count of bytes that a transfer left untransferred: the low 24
    /// bits of the status word.
    pub open spec fn spec_transfer_length(self) -> u32 {
        self.status & 0x00FF_FFFF
    }

    /// Whether the data word of a transfer event echoes an event-data value
    /// rather than the address of a record: bit 2 of the control word.
    pub open spec fn spec_event_data_bit(self) -> bool {
        self.control & 0x0000_0004 == 0x0000_0004
    }

    /// The echoed event-data value, where the record carries one.
    pub open spec fn spec_event_data(self) -> Option<u64> {
        if self.spec_event_data_bit() {
            Some(self.data)
        } else {
            None
        }
    }

    /// The endpoint that a record names: bits 16 to 20 of the control word.
    pub open spec fn spec_endpoint_id(self) -> u8 {
        ((self.control & 0x001F_0000) >> 16) as u8
    }

    /// The tag of the record kind: bits 10 to 15 of the control word.
    pub open spec fn spec_trb_type(self) -> u8 {
        ((self.control & 0x0000_FC00) >> 10) as u8
    }

    /// The cycle bit: bit 0 of the control word.
    pub open spec fn spec_cycle(self) -> bool {
        self.control & 1 == 1
    }

    /// The record is of the given kind and carries the given cycle bit.
    pub open spec fn is_kind(self, kind: TrbType, cycle: bool) -> bool {
        self.spec_trb_type() == kind.spec_code() && self.spec_cycle() == cycle
    }

    /// The record with its cycle bit replaced.
    pub open spec fn spec_with_cycle(self, cycle: bool) -> Trb {
        Trb {
            data: self.data,
            status: self.status,
            control: (self.control & 0xFFFF_FFFE) | bit(cycle),
        }
    }

    /// Replacing the cycle bit changes bit 0 of the control word and nothing
    /// else.
    pub proof fn lemma_with_cycle(self, cycle: bool)
        ensures
            self.spec_with_cycle(cycle).spec_cycle() == cycle,
            self.spec_with_cycle(cycle).spec_trb_type() == self.spec_trb_type(),
            self.spec_with_cycle(cycle).spec_event_slot() == self.spec_event_slot(),
            self.spec_with_cycle(cycle).spec_endpoint_id() == self.spec_endpoint_id(),
            self.spec_with_cycle(cycle).spec_event_data_bit() == self.spec_event_data_bit(),
            self.spec_with_cycle(cycle).control & 0xFFFF_FFFE == self.control & 0xFFFF_FFFE,
            self.spec_cycle() == cycle ==> self.spec_with_cycle(cycle) == self,
    {
        let c = self.control;
        let b = bit(cycle);
        let w = (c & 0xFFFF_FFFE) | b;
        assert(w & 1 == b && (w & 0x0000_FC00) >> 10 == (c & 0x0000_FC00) >> 10 && w >> 24 == c
            >> 24 && (w & 0x001F_0000) >> 16 == (c & 0x001F_0000) >> 16 && (w & 4 == 4) == (c & 4
            == 4) && w & 0xFFFF_FFFE == c & 0xFFFF_FFFE && (c & 1 == b ==> w == c) && (c & 1 == 0
            || c & 1 == 1)) by (bit_vector)
            requires
                b <= 1,
                w == (c & 0xFFFF_FFFE) | b,
        ;
    }

    /// Stores the three words.
    pub fn set(&mut self, data: u64, status: u32, control: u32)
        ensures
            *final(self) == (Trb { data, status, control }),
    {
        self.data = data;
        self.status = status;
        self.control = control;
    }

    /// The record with its cycle bit replaced.
    pub fn with_cycle(&self, cycle: bool) -> (t: Trb)
        ensures
            t == self.spec_with_cycle(cycle),
            t.spec_cycle() == cycle,
            t.spec_trb_type() == self.spec_trb_type(),
    {
        proof {
            self.lemma_with_cycle(cycle);
        }
        Trb {
            data: self.data,
            status: self.status,
            control: (self.control & 0xFFFF_FFFE) | flag_bit(cycle),
        }
    }

    /// The cycle bit of the record.
    pub fn cycle(&self) -> (c: bool)
        ensures
            c == self.spec_cycle(),
    {
        self.control & 1 == 1
    }

    /// The completion code of an event record.
    pub fn completion_code(&self) -> (code: u8)
        ensures
            code == self.spec_completion_code(),
            code as int == self.status as int / 0x100_0000,
    {
        let s: u32 = self.status;
        assert(s >> 24 < 0x100 && s >> 24 == s / 0x100_0000) by (bit_vector);
        (s >> TRB_STATUS_COMPLETION_CODE_SHIFT) as u8
    }

    /// The completion parameter of an event record.
    pub fn completion_param(&self) -> (param: u32)
        ensures
            param == self.spec_completion_param(),
            param as int == self.status as int % 0x100_0000,
    {
        let s: u32 = self.status;
        assert(s & 0x00FF_FFFF == s % 0x100_0000) by (bit_vector);
        s & TRB_STATUS_COMPLETION_PARAM_MASK
    }

    /// The slot that an event record names.
    pub fn event_slot(&self) -> (slot: u8)
        ensures
            slot == self.spec_event_slot(),
            slot as int == self.control as int / 0x100_0000,
    {
        let c: u32 = self.control;
        assert(c >> 24 < 0x100 && c >> 24 == c / 0x100_0000) by (bit_vector);
        (c >> 24) as u8
    }

    /// Returns the number of bytes that should have been transmitted, but
    /// were not.
    pub fn transfer_length(&self) -> (length: u32)
        ensures
            length == self.spec_transfer_length(),
            length as int == self.status as int % 0x100_0000,
    {
        let s: u32 = self.status;
        assert(s & 0x00FF_FFFF == s % 0x100_0000) by (bit_vector);
        s & TRB_STATUS_TRANSFER_LENGTH_MASK
    }

    /// Whether the data word echoes an event-data value.
    pub fn event_data_bit(&self) -> (set: bool)
        ensures
            set == self.spec_event_data_bit(),
    {
        self.control & TRB_CONTROL_EVENT_DATA_BIT == TRB_CONTROL_EVENT_DATA_BIT
    }

    /// The echoed event-data value, where the record carries one.
    pub fn event_data(&self) -> (value: Option<u64>)
        ensures
            value == self.spec_event_data(),
    {
        if self.event_data_bit() {
            Some(self.data)
        } else {
            None
        }
    }

    /// The endpoint that a record names.
    pub fn endpoint_id(&self) -> (id: u8)
        ensures
            id == self.spec_endpoint_id(),
            id < 32,
            id as int == (self.control as int / 0x1_0000) % 32,
    {
        let c: u32 = self.control;
        assert((c & 0x001F_0000) >> 16 < 32 && (c & 0x001F_0000) >> 16 == (c / 0x1_0000) % 32)
            by (bit_vector);
        ((c & TRB_CONTROL_ENDPOINT_ID_MASK) >> TRB_CONTROL_ENDPOINT_ID_SHIFT) as u8
    }

    /// The tag of the record kind.
    pub fn trb_type(&self) -> (tag: u8)
        ensures
            tag == self.spec_trb_type(),
            tag < 64,
            tag as int == (self.control as int / 1024) % 64,
    {
        let c: u32 = self.control;
        assert((c & 0x0000_FC00) >> 10 < 64 && (c & 0x0000_FC00) >> 10 == (c / 1024) % 64)
            by (bit_vector);
        ((c & TRB_CONTROL_TRB_TYPE_MASK) >> TRB_CONTROL_TRB_TYPE_SHIFT) as u8
    }

    /// A reserved record: all fields clear but the cycle bit.
    pub open spec fn spec_reserved(cycle: bool) -> Trb {
        Trb { data: 0, status: 0, control: type_field(TrbType::Reserved) | bit(cycle) }
    }

    /// Makes the record a reserved one: all fields clear but the cycle bit.
    pub fn reserved(&mut self, cycle: bool)
        ensures
            *final(self) == Trb::spec_reserved(cycle),
            final(self).is_kind(TrbType::Reserved, cycle),
    {
        let t: u32 = type_field_of(TrbType::Reserved);
        let c: u32 = flag_bit(cycle);
        let w: u32 = t | c;
        assert((w & 0x0000_FC00) >> 10 == 0 && (w & 1 == 1) == (c == 1)) by (bit_vector)
            requires
                t == 0u32 << 10,
                c <= 1,
                w == t | c,
        ;
        self.set(0, 0, w);
    }

    /// The link record that sends the reader of a ring to `address`; with
    /// `toggle` set the reader flips its cycle sense as it follows the link.
    pub open spec fn spec_link(address: usize, toggle: bool, cycle: bool) -> Trb {
        Trb {
            data: address as u64,
            status: 0,
            control: type_field(TrbType::Link) | (bit(toggle) << 1) | bit(cycle),
        }
    }

    /// Whether a link record tells its reader to flip the cycle sense: bit 1
    /// of the control word.
    pub open spec fn spec_link_toggle(self) -> bool {
        self.control & 2 == 2
    }

    /// A link record carries its kind, its cycle bit and its toggle flag at
    /// their places.
    pub proof fn lemma_link_fields(address: usize, toggle: bool, cycle: bool)
        ensures
            Trb::spec_link(address, toggle, cycle).is_kind(TrbType::Link, cycle),
            Trb::spec_link(address, toggle, cycle).spec_link_toggle() == toggle,
    {
        let t = type_field(TrbType::Link);
        let g = bit(toggle);
        let c = bit(cycle);
        let w = t | (g << 1) | c;
        assert((w & 0x0000_FC00) >> 10 == 6 && (w & 1 == 1) == (c == 1) && (w & 2 == 2) == (g
            == 1)) by (bit_vector)
            requires
                t == 6u32 << 10,
                g <= 1,
                c <= 1,
                w == t | (g << 1) | c,
        ;
    }

    /// Makes the record a link to `address`.
    pub fn link(&mut self, address: usize, toggle: bool, cycle: bool)
        ensures
            *final(self) == Trb::spec_link(address, toggle, cycle),
            final(self).is_kind(TrbType::Link, cycle),
            final(self).spec_link_toggle() == toggle,
    {
        proof {
            Trb::lemma_link_fields(address, toggle, cycle);
        }
        self.set(
            address as u64,
            0,
            type_field_of(TrbType::Link) | (flag_bit(toggle) << 1) | flag_bit(cycle),
        );
    }

    /// A no-op command.
    pub open spec fn spec_no_op_cmd(cycle: bool) -> Trb {
        Trb { data: 0, status: 0, control: type_field(TrbType::NoOpCmd) | bit(cycle) }
    }

    /// Makes the record a no-op command.
    pub fn no_op_cmd(&mut self, cycle: bool)
        ensures
            *final(self) == Trb::spec_no_op_cmd(cycle),
            final(self).is_kind(TrbType::NoOpCmd, cycle),
    {
        let t: u32 = type_field_of(TrbType::NoOpCmd);
        let c: u32 = flag_bit(cycle);
        let w: u32 = t | c;
        assert((w & 0x0000_FC00) >> 10 == 23 && (w & 1 == 1) == (c == 1)) by (bit_vector)
            requires
                t == 23u32 << 10,
                c <= 1,
                w == t | c,
        ;
        self.set(0, 0, w);
    }

    /// The slot type occupies bits 16 to 20; higher bits of `slot_type` are
    /// dropped.
    pub open spec fn spec_enable_slot(slot_type: u8, cycle: bool) -> Trb {
        Trb {
            data: 0,
            status: 0,
            control: (((slot_type as u32) & 0x1F) << 16) | type_field(TrbType::EnableSlot) | bit(
                cycle,
            ),
        }
    }

    /// Makes the record an enable-slot command.
    pub fn enable_slot(&mut self, slot_type: u8, cycle: bool)
        ensures
            *final(self) == Trb::spec_enable_slot(slot_type, cycle),
            final(self).is_kind(TrbType::EnableSlot, cycle),
            final(self).spec_endpoint_id() as int == slot_type as int % 32,
    {
        let s: u32 = slot_type as u32;
        let t: u32 = type_field_of(TrbType::EnableSlot);
        let c: u32 = flag_bit(cycle);
        let w: u32 = ((s & 0x1F) << 16) | t | c;
        assert((w & 0x0000_FC00) >> 10 == 9 && (w & 1 == 1) == (c == 1) && (w & 0x001F_0000)
            >> 16 == s % 32) by (bit_vector)
            requires
                t == 9u32 << 10,
                c <= 1,
                w == ((s & 0x1F) << 16) | t | c,
        ;
        self.set(0, 0, w);
    }

    /// An address-device command: the input context in the data word, the
    /// slot in the top byte of the control word and the block-set-address
    /// flag in bit 9.
    pub open spec fn spec_address_device(
        slot_id: u8,
        input_ctx_ptr: usize,
        bsr: bool,
        cycle: bool,
    ) -> Trb {
        Trb {
            data: input_ctx_ptr as u64,
            status: 0,
            control: ((slot_id as u32) << 24) | type_field(TrbType::AddressDevice) | (bit(bsr)
                << 9) | bit(cycle),
        }
    }

    /// The input context must lie on a 16-byte boundary.
    pub fn address_device(&mut self, slot_id: u8, input_ctx_ptr: usize, bsr: bool, cycle: bool)
        requires
            input_ctx_ptr % 16 == 0,
        ensures
            *final(self) == Trb::spec_address_device(slot_id, input_ctx_ptr, bsr, cycle),
            final(self).is_kind(TrbType::AddressDevice, cycle),
            final(self).spec_event_slot() == slot_id,
            (final(self).control & 0x200 == 0x200) == bsr,
    {
        let s: u32 = slot_id as u32;
        let t: u32 = type_field_of(TrbType::AddressDevice);
        let b: u32 = flag_bit(bsr);
        let c: u32 = flag_bit(cycle);
        let w: u32 = (s << 24) | t | (b << 9) | c;
        assert((w & 0x0000_FC00) >> 10 == 11 && (w & 1 == 1) == (c == 1) && w >> 24 == s && (w
            & 0x200 == 0x200) == (b == 1)) by (bit_vector)
            requires
                s < 0x100,
                t == 11u32 << 10,
                b <= 1,
                c <= 1,
                w == (s << 24) | t | (b << 9) | c,
        ;
        self.set(input_ctx_ptr as u64, 0, w);
    }

    /// A configure-endpoint command: the input context in the data word and
    /// the slot in the top byte of the control word.
    pub open spec fn spec_configure_endpoint(slot_id: u8, input_ctx_ptr: usize, cycle: bool) -> Trb {
        Trb {
            data: input_ctx_ptr as u64,
            status: 0,
            control: ((slot_id as u32) << 24) | type_field(TrbType::ConfigureEndpoint) | bit(
                cycle,
            ),
        }
    }

    /// Synchronizes the endpoints of the device context with those of the
    /// input context, which must lie on a 16-byte boundary.
    pub fn configure_endpoint(&mut self, slot_id: u8, input_ctx_ptr: usize, cycle: bool)
        requires
            input_ctx_ptr % 16 == 0,
        ensures
            *final(self) == Trb::spec_configure_endpoint(slot_id, input_ctx_ptr, cycle),
            final(self).is_kind(TrbType::ConfigureEndpoint, cycle),
            final(self).spec_event_slot() == slot_id,
    {
        let s: u32 = slot_id as u32;
        let t: u32 = type_field_of(TrbType::ConfigureEndpoint);
        let c: u32 = flag_bit(cycle);
        let w: u32 = (s << 24) | t | c;
        assert((w & 0x0000_FC00) >> 10 == 12 && (w & 1 == 1) == (c == 1) && w >> 24 == s)
            by (bit_vector)
            requires
                s < 0x100,
                t == 12u32 << 10,
                c <= 1,
                w == (s << 24) | t | c,
        ;
        self.set(input_ctx_ptr as u64, 0, w);
    }

    /// An evaluate-context command, laid out as an address-device command.
    pub open spec fn spec_evaluate_context(
        slot_id: u8,
        input_ctx_ptr: usize,
        bsr: bool,
        cycle: bool,
    ) -> Trb {
        Trb {
            data: input_ctx_ptr as u64,
            status: 0,
            control: ((slot_id as u32) << 24) | type_field(TrbType::EvaluateContext) | (bit(bsr)
                << 9) | bit(cycle),
        }
    }

    /// The input context must lie on a 16-byte boundary.
    pub fn evaluate_context(&mut self, slot_id: u8, input_ctx_ptr: usize, bsr: bool, cycle: bool)
        requires
            input_ctx_ptr % 16 == 0,
        ensures
            *final(self) == Trb::spec_evaluate_context(slot_id, input_ctx_ptr, bsr, cycle),
            final(self).is_kind(TrbType::EvaluateContext, cycle),
            final(self).spec_event_slot() == slot_id,
            (final(self).control & 0x200 == 0x200) == bsr,
    {
        let s: u32 = slot_id as u32;
        let t: u32 = type_field_of(TrbType::EvaluateContext);
        let b: u32 = flag_bit(bsr);
        let c: u32 = flag_bit(cycle);
        let w: u32 = (s << 24) | t | (b << 9) | c;
        assert((w & 0x0000_FC00) >> 10 == 13 && (w & 1 == 1) == (c == 1) && w >> 24 == s && (w
            & 0x200 == 0x200) == (b == 1)) by (bit_vector)
            requires
                s < 0x100,
                t == 13u32 << 10,
                b <= 1,
                c <= 1,
                w == (s << 24) | t | (b << 9) | c,
        ;
        self.set(input_ctx_ptr as u64, 0, w);
    }

    /// A reset-endpoint command: the slot in the top byte of the control
    /// word, the endpoint in bits 16 to 20 and the transfer-state-preserve
    /// flag in bit 9.
    pub open spec fn spec_reset_endpoint(
        slot_id: u8,
        endp_num_xhc: u8,
        tsp: bool,
        cycle: bool,
    ) -> Trb {
        Trb {
            data: 0,
            status: 0,
            control: ((slot_id as u32) << 24) | ((endp_num_xhc as u32) << 16) | type_field(
                TrbType::ResetEndpoint,
            ) | (bit(tsp) << 9) | bit(cycle),
        }
    }

    /// The endpoint number must fit its five-bit field.
    pub fn reset_endpoint(&mut self, slot_id: u8, endp_num_xhc: u8, tsp: bool, cycle: bool)
        requires
            endp_num_xhc <= 0x1F,
        ensures
            *final(self) == Trb::spec_reset_endpoint(slot_id, endp_num_xhc, tsp, cycle),
            final(self).is_kind(TrbType::ResetEndpoint, cycle),
            final(self).spec_event_slot() == slot_id,
            final(self).spec_endpoint_id() == endp_num_xhc,
            (final(self).control & 0x200 == 0x200) == tsp,
    {
        let s: u32 = slot_id as u32;
        let e: u32 = endp_num_xhc as u32;
        let t: u32 = type_field_of(TrbType::ResetEndpoint);
        let b: u32 = flag_bit(tsp);
        let c: u32 = flag_bit(cycle);
        let w: u32 = (s << 24) | (e << 16) | t | (b << 9) | c;
        assert((w & 0x0000_FC00) >> 10 == 14 && (w & 1 == 1) == (c == 1) && w >> 24 == s && (w
            & 0x001F_0000) >> 16 == e && (w & 0x200 == 0x200) == (b == 1)) by (bit_vector)
            requires
                s < 0x100,
                e <= 0x1F,
                t == 14u32 << 10,
                b <= 1,
                c <= 1,
                w == (s << 24) | (e << 16) | t | (b << 9) | c,
        ;
        self.set(0, 0, w);
    }

    /// A set-dequeue-pointer command: the pointer with the stream context
    /// type in bits 1 to 3 of the data word, the stream in the upper half of
    /// the status word, the slot and endpoint in the control word.
    pub open spec fn spec_set_tr_deque_ptr(
        deque_ptr: u64,
        cycle: bool,
        sct: StreamContextType,
        stream_id: u16,
        endp_num_xhc: u8,
        slot: u8,
    ) -> Trb {
        Trb {
            data: deque_ptr | ((sct.spec_code() as u64) << 1),
            status: (stream_id as u32) << 16,
            control: ((slot as u32) << 24) | ((endp_num_xhc as u32) << 16) | type_field(
                TrbType::SetTrDequeuePointer,
            ) | bit(cycle),
        }
    }

    /// The dequeue pointer carries the consumer's cycle state in bit 0 and
    /// must leave bits 1 to 3 clear for the stream context type; the endpoint
    /// number must fit its five-bit field.
    pub fn set_tr_deque_ptr(
        &mut self,
        deque_ptr: u64,
        cycle: bool,
        sct: StreamContextType,
        stream_id: u16,
        endp_num_xhc: u8,
        slot: u8,
    )
        requires
            deque_ptr & 0xFFFF_FFFF_FFFF_FFF1 == deque_ptr,
            endp_num_xhc <= 0x1F,
        ensures
            *final(self) == Trb::spec_set_tr_deque_ptr(
                deque_ptr,
                cycle,
                sct,
                stream_id,
                endp_num_xhc,
                slot,
            ),
            final(self).is_kind(TrbType::SetTrDequeuePointer, cycle),
            final(self).spec_event_slot() == slot,
            final(self).spec_endpoint_id() == endp_num_xhc,
            final(self).data & 0xFFFF_FFFF_FFFF_FFF1 == deque_ptr,
            (final(self).data >> 1) & 7 == sct.spec_code(),
            final(self).status >> 16 == stream_id,
    {
        let k: u64 = sct.code() as u64;
        let data: u64 = deque_ptr | (k << 1);
        assert(data & 0xFFFF_FFFF_FFFF_FFF1 == deque_ptr && (data >> 1) & 7 == k) by (bit_vector)
            requires
                deque_ptr & 0xFFFF_FFFF_FFFF_FFF1 == deque_ptr,
                k < 8,
                data == deque_ptr | (k << 1),
        ;
        let i: u32 = stream_id as u32;
        let status: u32 = i << 16;
        assert(status >> 16 == i) by (bit_vector)
            requires
                i < 0x1_0000,
                status == i << 16,
        ;
        let s: u32 = slot as u32;
        let e: u32 = endp_num_xhc as u32;
        let t: u32 = type_field_of(TrbType::SetTrDequeuePointer);
        let c: u32 = flag_bit(cycle);
        let w: u32 = (s << 24) | (e << 16) | t | c;
        assert((w & 0x0000_FC00) >> 10 == 16 && (w & 1 == 1) == (c == 1) && w >> 24 == s && (w
            & 0x001F_0000) >> 16 == e) by (bit_vector)
            requires
                s < 0x100,
                e <= 0x1F,
                t == 16u32 << 10,
                c <= 1,
                w == (s << 24) | (e << 16) | t | c,
        ;
        self.set(data, status, w)
    }

    /// A stop-endpoint command: the slot in the top byte of the control
    /// word, the suspend flag in bit 23 and the endpoint in bits 16 to 20.
    pub open spec fn spec_stop_endpoint(
        slot_id: u8,
        endp_num_xhc: u8,
        suspend: bool,
        cycle: bool,
    ) -> Trb {
        Trb {
            data: 0,
            status: 0,
            control: ((slot_id as u32) << 24) | (bit(suspend) << 23) | ((endp_num_xhc as u32)
                << 16) | type_field(TrbType::StopEndpoint) | bit(cycle),
        }
    }

    /// The endpoint number must fit its five-bit field.
    pub fn stop_endpoint(&mut self, slot_id: u8, endp_num_xhc: u8, suspend: bool, cycle: bool)
        requires
            endp_num_xhc <= 0x1F,
        ensures
            *final(self) == Trb::spec_stop_endpoint(slot_id, endp_num_xhc, suspend, cycle),
            final(self).is_kind(TrbType::StopEndpoint, cycle),
            final(self).spec_event_slot() == slot_id,
            final(self).spec_endpoint_id() == endp_num_xhc,
            (final(self).control & 0x80_0000 == 0x80_0000) == suspend,
    {
        let s: u32 = slot_id as u32;
        let p: u32 = flag_bit(suspend);
        let e: u32 = endp_num_xhc as u32;
        let t: u32 = type_field_of(TrbType::StopEndpoint);
        let c: u32 = flag_bit(cycle);
        let w: u32 = (s << 24) | (p << 23) | (e << 16) | t | c;
        assert((w & 0x0000_FC00) >> 10 == 15 && (w & 1 == 1) == (c == 1) && w >> 24 == s && (w
            & 0x001F_0000) >> 16 == e && (w & 0x80_0000 == 0x80_0000) == (p == 1))
            by (bit_vector)
            requires
                s < 0x100,
                p <= 1,
                e <= 0x1F,
                t == 15u32 << 10,
                c <= 1,
                w == (s << 24) | (p << 23) | (e << 16) | t | c,
        ;
        self.set(0, 0, w);
    }

    /// A reset-device command for a slot.
    pub open spec fn spec_reset_device(slot_id: u8, cycle: bool) -> Trb {
        Trb {
            data: 0,
            status: 0,
            control: ((slot_id as u32) << 24) | type_field(TrbType::ResetDevice) | bit(cycle),
        }
    }

    /// Makes the record a reset-device command for a slot.
    pub fn reset_device(&mut self, slot_id: u8, cycle: bool)
        ensures
            *final(self) == Trb::spec_reset_device(slot_id, cycle),
            final(self).is_kind(TrbType::ResetDevice, cycle),
            final(self).spec_event_slot() == slot_id,
    {
        let s: u32 = slot_id as u32;
        let t: u32 = type_field_of(TrbType::ResetDevice);
        let c: u32 = flag_bit(cycle);
        let w: u32 = (s << 24) | t | c;
        assert((w & 0x0000_FC00) >> 10 == 17 && (w & 1 == 1) == (c == 1) && w >> 24 == s)
            by (bit_vector)
            requires
                s < 0x100,
                t == 17u32 << 10,
                c <= 1,
                w == (s << 24) | t | c,
        ;
        self.set(0, 0, w);
    }

    /// The interrupter target occupies bits 22 to 31 of the status word; the
    /// flags are evaluate-next (bit 1), chain (bit 4) and
    /// interrupt-on-completion (bit 5).
    pub open spec fn spec_transfer_no_op(
        interrupter: u8,
        ent: bool,
        ch: bool,
        ioc: bool,
        cycle: bool,
    ) -> Trb {
        Trb {
            data: 0,
            status: (interrupter as u32) << 22,
            control: type_field(TrbType::NoOp) | (bit(ioc) << 5) | (bit(ch) << 4) | (bit(ent)
                << 1) | bit(cycle),
        }
    }

    /// Makes the record a no-op transfer.
    pub fn transfer_no_op(&mut self, interrupter: u8, ent: bool, ch: bool, ioc: bool, cycle: bool)
        ensures
            *final(self) == Trb::spec_transfer_no_op(interrupter, ent, ch, ioc, cycle),
            final(self).is_kind(TrbType::NoOp, cycle),
            final(self).status >> 22 == interrupter,
            (final(self).control & 0x20 == 0x20) == ioc,
            (final(self).control & 0x10 == 0x10) == ch,
            (final(self).control & 0x02 == 0x02) == ent,
    {
        let n: u32 = interrupter as u32;
        let status: u32 = n << 22;
        assert(status >> 22 == n) by (bit_vector)
            requires
                n < 0x100,
                status == n << 22,
        ;
        let t: u32 = type_field_of(TrbType::NoOp);
        let i: u32 = flag_bit(ioc);
        let h: u32 = flag_bit(ch);
        let e: u32 = flag_bit(ent);
        let c: u32 = flag_bit(cycle);
        let w: u32 = t | (i << 5) | (h << 4) | (e << 1) | c;
        assert((w & 0x0000_FC00) >> 10 == 8 && (w & 1 == 1) == (c == 1) && (w & 0x20 == 0x20)
            == (i == 1) && (w & 0x10 == 0x10) == (h == 1) && (w & 0x02 == 0x02) == (e == 1))
            by (bit_vector)
            requires
                t == 8u32 << 10,
                i <= 1,
                h <= 1,
                e <= 1,
                c <= 1,
                w == t | (i << 5) | (h << 4) | (e << 1) | c,
        ;
        self.set(0, status, w);
    }

    /// The setup stage carries the packet itself in the data word (the
    /// immediate-data flag, bit 6, says so), a length of eight in the status
    /// word and the direction of the data stage in bits 16 and 17.
    pub open spec fn spec_setup(setup: Setup, transfer: TransferKind, cycle: bool) -> Trb {
        Trb {
            data: setup.spec_as_word(),
            status: 8,
            control: ((transfer.spec_code() as u32) << 16) | type_field(TrbType::SetupStage) | (1u32
                << 6) | bit(cycle),
        }
    }

    /// Makes the record the setup stage of a control transfer.
    pub fn setup(&mut self, setup: Setup, transfer: TransferKind, cycle: bool)
        ensures
            *final(self) == Trb::spec_setup(setup, transfer, cycle),
            final(self).is_kind(TrbType::SetupStage, cycle),
            (final(self).control >> 16) & 3 == transfer.spec_code(),
            final(self).control & 0x40 == 0x40,
    {
        let k: u32 = transfer.code() as u32;
        let t: u32 = type_field_of(TrbType::SetupStage);
        let c: u32 = flag_bit(cycle);
        let w: u32 = (k << 16) | t | (1u32 << 6) | c;
        assert((w & 0x0000_FC00) >> 10 == 2 && (w & 1 == 1) == (c == 1) && (w >> 16) & 3 == k
            && w & 0x40 == 0x40) by (bit_vector)
            requires
                k < 4,
                t == 2u32 << 10,
                c <= 1,
                w == (k << 16) | t | (1u32 << 6) | c,
        ;
        self.set(setup.as_word(), 8, w);
    }

    /// The data stage names its buffer and length; bit 16 gives the
    /// direction, set for a transfer towards the host.
    pub open spec fn spec_data(buffer: usize, length: u16, input: bool, cycle: bool) -> Trb {
        Trb {
            data: buffer as u64,
            status: length as u32,
            control: (bit(input) << 16) | type_field(TrbType::DataStage) | bit(cycle),
        }
    }

    /// Makes the record the data stage of a control transfer.
    pub fn data(&mut self, buffer: usize, length: u16, input: bool, cycle: bool)
        ensures
            *final(self) == Trb::spec_data(buffer, length, input, cycle),
            final(self).is_kind(TrbType::DataStage, cycle),
            (final(self).control & 0x1_0000 == 0x1_0000) == input,
    {
        let d: u32 = flag_bit(input);
        let t: u32 = type_field_of(TrbType::DataStage);
        let c: u32 = flag_bit(cycle);
        let w: u32 = (d << 16) | t | c;
        assert((w & 0x0000_FC00) >> 10 == 3 && (w & 1 == 1) == (c == 1) && (w & 0x1_0000
            == 0x1_0000) == (d == 1)) by (bit_vector)
            requires
                d <= 1,
                t == 3u32 << 10,
                c <= 1,
                w == (d << 16) | t | c,
        ;
        self.set(buffer as u64, length as u32, w);
    }

    /// The status stage asks for an interrupt on completion (bit 5); bit 16
    /// gives the direction.
    pub open spec fn spec_status(input: bool, cycle: bool) -> Trb {
        Trb {
            data: 0,
            status: 0,
            control: (bit(input) << 16) | type_field(TrbType::StatusStage) | (1u32 << 5) | bit(
                cycle,
            ),
        }
    }

    /// Makes the record the status stage of a control transfer.
    pub fn status(&mut self, input: bool, cycle: bool)
        ensures
            *final(self) == Trb::spec_status(input, cycle),
            final(self).is_kind(TrbType::StatusStage, cycle),
            (final(self).control & 0x1_0000 == 0x1_0000) == input,
            final(self).control & 0x20 == 0x20,
    {
        let d: u32 = flag_bit(input);
        let t: u32 = type_field_of(TrbType::StatusStage);
        let c: u32 = flag_bit(cycle);
        let w: u32 = (d << 16) | t | (1u32 << 5) | c;
        assert((w & 0x0000_FC00) >> 10 == 4 && (w & 1 == 1) == (c == 1) && (w & 0x1_0000
            == 0x1_0000) == (d == 1) && w & 0x20 == 0x20) by (bit_vector)
            requires
                d <= 1,
                t == 4u32 << 10,
                c <= 1,
                w == (d << 16) | t | (1u32 << 5) | c,
        ;
        self.set(0, 0, w);
    }

    /// A normal transfer record. The status word holds the length in bits 0
    /// to 16, the estimated size of the rest of the transfer in bits 17 to 21
    /// and the interrupter in bits 22 to 31. The flags of the control word
    /// are evaluate-next (bit 1), interrupt-on-short-packet (bit 2), chain
    /// (bit 4), interrupt-on-completion (bit 5), immediate-data (bit 6) and
    /// block-event-interrupt (bit 9).
    pub open spec fn spec_normal(
        buffer: u64,
        len: u16,
        cycle: bool,
        estimated_td_size: u8,
        interrupter: u8,
        ent: bool,
        isp: bool,
        chain: bool,
        ioc: bool,
        idt: bool,
        bei: bool,
    ) -> Trb {
        Trb {
            data: buffer,
            status: (len as u32) | ((estimated_td_size as u32) << 17) | ((interrupter as u32)
                << 22),
            control: bit(cycle) | (bit(ent) << 1) | (bit(isp) << 2) | (bit(chain) << 4) | (bit(
                ioc,
            ) << 5) | (bit(idt) << 6) | (bit(bei) << 9) | type_field(TrbType::Normal),
        }
    }

    /// The estimated size must fit its five-bit field.
    pub fn normal(
        &mut self,
        buffer: u64,
        len: u16,
        cycle: bool,
        estimated_td_size: u8,
        interrupter: u8,
        ent: bool,
        isp: bool,
        chain: bool,
        ioc: bool,
        idt: bool,
        bei: bool,
    )
        requires
            estimated_td_size <= 0x1F,
        ensures
            *final(self) == Trb::spec_normal(
                buffer,
                len,
                cycle,
                estimated_td_size,
                interrupter,
                ent,
                isp,
                chain,
                ioc,
                idt,
                bei,
            ),
            final(self).is_kind(TrbType::Normal, cycle),
            final(self).status & 0x1_FFFF == len,
            (final(self).status >> 17) & 0x1F == estimated_td_size,
            final(self).status >> 22 == interrupter,
            (final(self).control & 0x002 == 0x002) == ent,
            (final(self).control & 0x004 == 0x004) == isp,
            (final(self).control & 0x010 == 0x010) == chain,
            (final(self).control & 0x020 == 0x020) == ioc,
            (final(self).control & 0x040 == 0x040) == idt,
            (final(self).control & 0x200 == 0x200) == bei,
    {
        let l: u32 = len as u32;
        let z: u32 = estimated_td_size as u32;
        let n: u32 = interrupter as u32;
        let status: u32 = l | (z << 17) | (n << 22);
        assert(status & 0x1_FFFF == l && (status >> 17) & 0x1F == z && status >> 22 == n)
            by (bit_vector)
            requires
                l < 0x1_0000,
                z <= 0x1F,
                n < 0x100,
                status == l | (z << 17) | (n << 22),
        ;
        let c: u32 = flag_bit(cycle);
        let e: u32 = flag_bit(ent);
        let p: u32 = flag_bit(isp);
        let h: u32 = flag_bit(chain);
        let i: u32 = flag_bit(ioc);
        let d: u32 = flag_bit(idt);
        let b: u32 = flag_bit(bei);
        let t: u32 = type_field_of(TrbType::Normal);
        let w: u32 = c | (e << 1) | (p << 2) | (h << 4) | (i << 5) | (d << 6) | (b << 9) | t;
        assert((w & 0x0000_FC00) >> 10 == 1 && (w & 1 == 1) == (c == 1) && (w & 0x002 == 0x002)
            == (e == 1) && (w & 0x004 == 0x004) == (p == 1) && (w & 0x010 == 0x010) == (h == 1)
            && (w & 0x020 == 0x020) == (i == 1) && (w & 0x040 == 0x040) == (d == 1) && (w & 0x200
            == 0x200) == (b == 1)) by (bit_vector)
            requires
                c <= 1,
                e <= 1,
                p <= 1,
                h <= 1,
                i <= 1,
                d <= 1,
                b <= 1,
                t == 1u32 << 10,
                w == c | (e << 1) | (p << 2) | (h << 4) | (i << 5) | (d << 6) | (b << 9) | t,
        ;
        self.set(buffer, status, w)
    }

    /// The record as a line of text: the three words in upper-case
    /// hexadecimal, each at its full width, in round brackets.
    pub open spec fn spec_display_text(self) -> Seq<char> {
        seq!['('] + hex_upper(self.data as nat, 16) + seq![',', ' '] + hex_upper(
            self.status as nat,
            8,
        ) + seq![',', ' '] + hex_upper(self.control as nat, 8) + seq![')']
    }

    /// The record as a line of text that names each word.
    pub open spec fn spec_debug_text(self) -> Seq<char> {
        "Trb { data: "@ + hex_upper(self.data as nat, 16) + ", status: "@ + hex_upper(
            self.status as nat,
            8,
        ) + ", control: "@ + hex_upper(self.control as nat, 8) + " }"@
    }

    /// The three words in hexadecimal, as a reader of a log wants them.
    pub fn display_string(&self) -> (text: String)
        ensures
            text@ == self.spec_display_text(),
    {
        format_display(self.data, self.status, self.control)
    }

    /// The three words in hexadecimal, each with its name.
    pub fn debug_string(&self) -> (text: String)
        ensures
            text@ == self.spec_debug_text(),
    {
        format_debug(self.data, self.status, self.control)
    }
}

/// Calls `format!` of the standard library with the width-16 and width-8
/// zero-padded upper-case hexadecimal forms. The contract claims that each
/// word comes out as exactly that many digits, most significant first,
/// between the literal brackets and separators of the format string.
#[verifier::external_body]
fn format_display(data: u64, status: u32, control: u32) -> (text: String)
    ensures
        text@ == (Trb { data, status, control }).spec_display_text(),
{
    format!("({:>016X}, {:>08X}, {:>08X})", data, status, control)
}

/// Calls `format!` of the standard library as `format_display` does, with
/// the name of each word before its digits. The contract claims the same of
/// the digits, and that the literal parts of the format string come out
/// unchanged.
#[verifier::external_body]
fn format_debug(data: u64, status: u32, control: u32) -> (text: String)
    ensures
        text@ == (Trb { data, status, control }).spec_debug_text(),
{
    format!("Trb {{ data: {:>016X}, status: {:>08X}, control: {:>08X} }}", data, status, control)
}

} // verus!

use vstd::prelude::*;

verus! {

/// What kept a hashboard controller from being constructed.
#[derive(Debug, Clone, Copy, PartialEq, Eq, Structural)]
pub enum HashboardFault {
    /// The presence-detect pin could not be obtained.
    PlugPinUnavailable,
    /// The presence-detect pin could not be read.
    PlugPinUnreadable,
    /// The presence-detect pin reads low: no board in the slot.
    NotPresent,
    /// The reset pin could not be obtained.
    ResetPinUnavailable,
    /// One of the four I/O channels of the IP core could not be set up.
    ChannelUnavailable,
}

/// Every way in which bringing up or driving a hashboard can fail.
#[derive(Debug, Clone, Copy, PartialEq, Eq, Structural)]
pub enum ErrorKind {
    /// The hardware supports 1, 2 or 4 midstates per work and nothing else.
    UnsupportedMidstateCount(usize),
    /// The hashboard with the given index could not be taken into service.
    Hashboard(usize, HashboardFault),
    /// No divisor brings the UART within tolerance of the requested rate.
    BaudRateOutOfTolerance { requested: usize },
    /// The voltage controller runs a firmware other than the expected one.
    UnexpectedVersion { actual: u8, expected: u8 },
    /// The chip with the given position in the chain is not of the
    /// supported revision.
    UnexpectedChipRevision { chip: usize },
    /// As many chips answered as the address space cannot hold.
    TooManyChips,
    /// No chip answered the address request.
    NoChipsDetected,
    /// A collaborator reported that it could not carry out an action.
    Io,
    /// The event handed in does not answer the action that is pending.
    UnexpectedEvent,
}

} // verus!

//! Error taxonomy: decode failures for single frames and protocol
//! failures for in-progress transfers. Every protocol failure names the
//! state transition that raised it.

use vstd::prelude::*;

verus! {

/// Why a raw CAN payload was rejected by the frame codec.
#[derive(PartialEq, Eq, Structural, Clone, Copy, Debug)]
pub enum DecodeError {
    /// The payload is shorter than the minimum required for the declared
    /// PDU type.
    FrameTooShort,
    /// A length field holds a value the PDU type does not allow, such as
    /// a First Frame length of zero or one small enough for a Single
    /// Frame.
    InvalidLength,
    /// The PDU-type nibble names no ISO-TP PDU.
    InvalidPduType,
    /// The flow-status nibble of a Flow Control frame is reserved.
    InvalidFlowStatus,
    /// A padding check was requested and the frame length or the padding
    /// bytes do not match the configured content.
    PaddingViolation,
    /// The extended-addressing byte does not match the configured
    /// receive address.
    AddressMismatch,
}

/// Why an in-progress transfer was aborted. Each variant names the
/// state transition that raised it; the transfer's state machine is
/// reset to idle when one is returned.
#[derive(PartialEq, Eq, Structural, Clone, Copy, Debug)]
pub enum ProtocolError {
    /// A Consecutive Frame arrived whose sequence number is not the one
    /// expected next; the partial message is discarded.
    Sequence { expected: u8, received: u8 },
    /// The frame awaited by the current state did not arrive within the
    /// configured timeout.
    Timeout,
    /// The announced message is larger than the receive buffer, or the
    /// peer signalled an overflow; the transfer is terminal, not
    /// retried.
    ReceiverOverflow,
    /// More consecutive Wait flow-control frames arrived than `wftmax`
    /// allows.
    TooManyWaitFrames,
    /// A frame arrived that the current state does not expect, such as a
    /// Consecutive Frame with no transfer in progress.
    UnexpectedPdu,
}

/// Why an inbound raw frame was not consumed: it failed to decode, or
/// it failed the transfer it was fed to.
#[derive(PartialEq, Eq, Structural, Clone, Copy, Debug)]
pub enum FrameError {
    Decode(DecodeError),
    Protocol(ProtocolError),
}

} // verus!

//! Conditions that can arise while decoding or encoding packets.

use vstd::prelude::*;

verus! {

/// Packet parsing error
#[derive(Copy, Clone, Debug, PartialEq, Eq, Structural)]
pub enum MspPacketParseError {
    /// The output buffer handed to the serializer does not have the packet's wire size.
    OutputBufferSizeMismatch,
    /// The checksum byte on the wire (`expected`) differs from the fold of the
    /// received length, command and payload bytes (`calculated`).
    CrcMismatch { expected: u8, calculated: u8 },
    InvalidData,
    InvalidHeader1,
    InvalidHeader2,
    InvalidDirection,
    /// The payload is longer than the single length byte can express.
    InvalidDataLength,
}

} // verus!

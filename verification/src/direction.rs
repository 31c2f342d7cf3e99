//! The direction marker of a packet and its wire byte.

use vstd::prelude::*;

verus! {

/// Packet's desired destination
#[derive(Copy, Clone, Debug, PartialEq, Eq, Structural)]
pub enum MspPacketDirection {
    /// Network byte '<'
    ToFlightController,
    /// Network byte '>'
    FromFlightController,
    /// Network byte '!'
    Unsupported,
}

impl MspPacketDirection {
    /// The wire byte of a direction.
    pub open spec fn spec_to_byte(self) -> u8 {
        match self {
            MspPacketDirection::ToFlightController => 60u8,
            MspPacketDirection::FromFlightController => 62u8,
            MspPacketDirection::Unsupported => 33u8,
        }
    }

    /// The direction that a wire byte stands for, if any.
    pub open spec fn spec_from_byte(b: u8) -> Option<MspPacketDirection> {
        if b == 60u8 {
            Some(MspPacketDirection::ToFlightController)
        } else if b == 62u8 {
            Some(MspPacketDirection::FromFlightController)
        } else if b == 33u8 {
            Some(MspPacketDirection::Unsupported)
        } else {
            None
        }
    }

    /// To network byte
    pub fn to_byte(&self) -> (b: u8)
        ensures
            b == self.spec_to_byte(),
            Self::spec_from_byte(b) == Some(*self),
    {
        match *self {
            MspPacketDirection::ToFlightController => 60u8,
            MspPacketDirection::FromFlightController => 62u8,
            MspPacketDirection::Unsupported => 33u8,
        }
    }

    /// From network byte: `<`, `>` and `!` are the only bytes that name a direction.
    pub fn from_byte(b: u8) -> (d: Option<MspPacketDirection>)
        ensures
            d == Self::spec_from_byte(b),
            d is Some <==> (b == 60u8 || b == 62u8 || b == 33u8),
            d matches Some(x) ==> x.spec_to_byte() == b,
    {
        match b {
            60u8 => Some(MspPacketDirection::ToFlightController),
            62u8 => Some(MspPacketDirection::FromFlightController),
            33u8 => Some(MspPacketDirection::Unsupported),
            _ => None,
        }
    }

    /// `to_byte` is injective: two directions with the same wire byte are the same.
    pub proof fn lemma_to_byte_injective(a: MspPacketDirection, b: MspPacketDirection)
        requires
            a.spec_to_byte() == b.spec_to_byte(),
        ensures
            a == b,
    {
    }

    /// The two mappings are inverse to each other on the three wire bytes.
    pub proof fn lemma_byte_round_trip(d: MspPacketDirection, b: u8)
        ensures
            Self::spec_from_byte(d.spec_to_byte()) == Some(d),
            Self::spec_from_byte(b) == Some(d) <==> d.spec_to_byte() == b,
    {
    }
}

} // verus!

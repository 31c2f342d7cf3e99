//! A decoded packet, its wire form and its serializer.

use crate::checksum::{length_byte, lemma_xor_fold_push, packet_checksum, xor_fold};
use crate::direction::MspPacketDirection;
use crate::error::MspPacketParseError;
use std::borrow::Cow;
use vstd::prelude::*;

verus! {

/// First preamble byte, `$`.
pub const MSP_HEADER1: u8 = 36;

/// Second preamble byte, `M`.
pub const MSP_HEADER2: u8 = 77;

/// Largest payload that the single length byte can express.
pub const MSP_MAX_PAYLOAD: usize = 255;

/// What a packet is, whoever owns its payload: command, direction, payload bytes.
pub struct MspPacketView {
    pub cmd: u8,
    pub direction: MspPacketDirection,
    pub data: Seq<u8>,
}

impl MspPacketView {
    /// The payload fits the length byte.
    pub open spec fn wf(self) -> bool {
        self.data.len() <= 255
    }

    /// Number of bytes of the packet on the wire.
    pub open spec fn wire_size(self) -> nat {
        6 + self.data.len()
    }

    /// The packet on the wire: preamble, direction, length, command, payload, checksum.
    pub open spec fn wire(self) -> Seq<u8> {
        seq![
            MSP_HEADER1,
            MSP_HEADER2,
            self.direction.spec_to_byte(),
            length_byte(self.data),
            self.cmd,
        ] + self.data + seq![packet_checksum(self.cmd, self.data)]
    }

    /// The wire form is as long as the wire size says.
    pub proof fn lemma_wire_len(self)
        ensures
            self.wire().len() == self.wire_size(),
            self.data.len() == 0 ==> self.wire().len() == 6,
            self.data.len() == 255 ==> self.wire().len() == 261,
    {
    }
}

#[derive(Debug)]
/// A decoded MSP packet, with a command code, direction and payload
pub struct MspPacket<'a> {
    pub cmd: u8,
    pub direction: MspPacketDirection,
    pub data: Cow<'a, [u8]>,
}

impl<'a> View for MspPacket<'a> {
    type V = MspPacketView;

    open spec fn view(&self) -> MspPacketView {
        MspPacketView { cmd: self.cmd, direction: self.direction, data: self.data@ }
    }
}

/// The payload bytes, borrowed or owned.
fn payload_bytes<'b>(data: &'b Cow<'_, [u8]>) -> (bytes: &'b [u8])
    ensures
        bytes@ == data@,
{
    match data {
        Cow::Borrowed(b) => b,
        Cow::Owned(v) => v.as_slice(),
    }
}

impl<'a> Clone for MspPacket<'a> {
    /// A borrowed payload stays borrowed, an owned one is copied.
    fn clone(&self) -> (r: MspPacket<'a>)
        ensures
            r@ == self@,
    {
        let data: Cow<'a, [u8]> = match &self.data {
            Cow::Borrowed(b) => Cow::Borrowed(*b),
            Cow::Owned(v) => {
                let copy: Vec<u8> = v.clone();
                assert(copy@ =~= v@);
                Cow::Owned(copy)
            },
        };
        MspPacket { cmd: self.cmd, direction: self.direction, data }
    }
}

impl<'a> PartialEq for MspPacket<'a> {
    /// Two packets are equal when command, direction and payload bytes are,
    /// whether the payload is borrowed or owned.
    fn eq(&self, other: &MspPacket<'a>) -> (r: bool) {
        let a: &[u8] = payload_bytes(&self.data);
        let b: &[u8] = payload_bytes(&other.data);
        if self.cmd != other.cmd || self.direction != other.direction || a.len() != b.len() {
            return false;
        }
        let n: usize = a.len();
        let mut i: usize = 0;
        while i < n
            invariant
                i <= n,
                n == a@.len(),
                n == b@.len(),
                a@ == self.data@,
                b@ == other.data@,
                forall|k: int| 0 <= k < i ==> a@[k] == b@[k],
            decreases n - i,
        {
            if a[i] != b[i] {
                assert(self.data@[i as int] != other.data@[i as int]);
                return false;
            }
            i += 1;
        }
        assert(a@ =~= b@);
        true
    }
}

impl<'a> vstd::std_specs::cmp::PartialEqSpecImpl for MspPacket<'a> {
    open spec fn obeys_eq_spec() -> bool {
        true
    }

    open spec fn eq_spec(&self, other: &MspPacket<'a>) -> bool {
        self@ == other@
    }
}

impl<'a> MspPacket<'a> {
    /// Number of bytes that this packet requires to be packed
    pub fn packet_size_bytes(&self) -> (size: usize)
        requires
            self@.wire_size() <= usize::MAX,
        ensures
            size == self@.wire_size(),
            size == 6 + self.data@.len(),
    {
        6 + payload_bytes(&self.data).len()
    }

    /// Serialize to network bytes
    ///
    /// The buffer must be exactly as long as the packet's wire size, and the
    /// payload at most 255 bytes long. Otherwise an error is returned and the
    /// buffer is left as it was.
    pub fn serialize(&self, output: &mut [u8]) -> (r: Result<(), MspPacketParseError>)
        ensures
            old(output)@.len() != self@.wire_size() ==> r == Err::<(), MspPacketParseError>(
                MspPacketParseError::OutputBufferSizeMismatch,
            ),
            old(output)@.len() == self@.wire_size() && !self@.wf() ==> r == Err::<
                (),
                MspPacketParseError,
            >(MspPacketParseError::InvalidDataLength),
            old(output)@.len() == self@.wire_size() && self@.wf() ==> r is Ok,
            r is Ok ==> final(output)@ == self@.wire(),
            r is Err ==> final(output)@ == old(output)@,
    {
        let l: usize = output.len();
        let data: &[u8] = payload_bytes(&self.data);
        let n: usize = data.len();
        if n > usize::MAX - 6 || l != 6 + n {
            return Err(MspPacketParseError::OutputBufferSizeMismatch);
        }
        if n > MSP_MAX_PAYLOAD {
            return Err(MspPacketParseError::InvalidDataLength);
        }
        output[0] = MSP_HEADER1;
        output[1] = MSP_HEADER2;
        output[2] = self.direction.to_byte();
        output[3] = n as u8;
        output[4] = self.cmd;

        let mut crc: u8 = output[3] ^ output[4];
        let ghost wire = self@.wire();
        let mut i: usize = 0;
        while i < n
            invariant
                i <= n,
                n == data@.len(),
                n <= 255,
                data@ == self.data@,
                wire == self@.wire(),
                output@.len() == n + 6,
                forall|k: int| 0 <= k < 5 + i ==> output@[k] == wire[k],
                crc == xor_fold(length_byte(data@) ^ self.cmd, data@.take(i as int)),
            decreases n - i,
        {
            let b: u8 = data[i];
            output[5 + i] = b;
            crc ^= b;
            proof {
                assert(data@.take(i + 1) =~= data@.take(i as int).push(b));
                lemma_xor_fold_push(length_byte(data@) ^ self.cmd, data@.take(i as int), b);
            }
            i += 1;
        }
        proof {
            assert(data@.take(n as int) =~= data@);
        }
        output[l - 1] = crc;
        proof {
            assert(output@ =~= wire);
        }
        Ok(())
    }
}

} // verus!

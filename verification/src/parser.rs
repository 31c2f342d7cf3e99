//! The byte-at-a-time packet parser and its model as a state machine.

use crate::checksum::{lemma_xor_fold_push, xor_fold};
use crate::direction::MspPacketDirection;
use crate::error::MspPacketParseError;
use crate::packet::{MspPacket, MspPacketView, MSP_HEADER1, MSP_HEADER2};
use std::borrow::Cow;
use vstd::prelude::*;

verus! {

/// What the parser waits for next.
#[derive(Copy, Clone, Debug, PartialEq, Eq, Structural)]
pub enum MspParserState {
    Header1,
    Header2,
    Direction,
    DataLength,
    Command,
    Data,
    Crc,
}

/// The parser as a mathematical value: its state and what it has gathered of
/// the packet in progress.
pub struct MspParserView {
    pub state: MspParserState,
    pub direction: MspPacketDirection,
    pub cmd: u8,
    /// Payload bytes still to come.
    pub remaining: nat,
    /// Payload bytes received so far.
    pub data: Seq<u8>,
    /// Exclusive-or of the length, command and payload bytes received so far.
    pub crc: u8,
}

/// What one input byte makes the parser hand back: nothing yet, a packet, or
/// a checksum error.
pub type MspParseOutcome = Result<Option<MspPacketView>, MspPacketParseError>;

impl MspParserView {
    /// The parser between packets, with nothing gathered.
    pub open spec fn initial() -> MspParserView {
        MspParserView {
            state: MspParserState::Header1,
            direction: MspPacketDirection::ToFlightController,
            cmd: 0,
            remaining: 0,
            data: Seq::empty(),
            crc: 0,
        }
    }

    /// The length byte of the packet in progress, once it has been received.
    pub open spec fn declared_length(self) -> nat {
        self.data.len() + self.remaining
    }

    /// What holds of the parser at every moment. Before the length byte nothing
    /// is gathered. After it the payload received so far is no longer than the
    /// declared length, and the checksum is the fold of every length, command
    /// and payload byte received so far.
    pub open spec fn inv(self) -> bool {
        match self.state {
            MspParserState::Header1 | MspParserState::Header2 | MspParserState::Direction => {
                self == (MspParserView { state: self.state, ..Self::initial() })
            },
            MspParserState::DataLength => {
                self == (MspParserView {
                    state: self.state,
                    direction: self.direction,
                    ..Self::initial()
                })
            },
            MspParserState::Command => {
                &&& self.cmd == 0
                &&& self.data == Seq::<u8>::empty()
                &&& self.remaining <= 255
                &&& self.crc == self.remaining as u8
            },
            MspParserState::Data => {
                &&& self.remaining > 0
                &&& self.declared_length() <= 255
                &&& self.crc == xor_fold((self.declared_length() as u8) ^ self.cmd, self.data)
            },
            MspParserState::Crc => {
                &&& self.remaining == 0
                &&& self.declared_length() <= 255
                &&& self.crc == xor_fold((self.declared_length() as u8) ^ self.cmd, self.data)
            },
        }
    }

    /// The parser after one more input byte.
    pub open spec fn step(self, input: u8) -> MspParserView {
        match self.state {
            MspParserState::Header1 => {
                if input == MSP_HEADER1 {
                    MspParserView { state: MspParserState::Header2, ..self }
                } else {
                    Self::initial()
                }
            },
            MspParserState::Header2 => {
                if input == MSP_HEADER2 {
                    MspParserView { state: MspParserState::Direction, ..self }
                } else {
                    Self::initial()
                }
            },
            MspParserState::Direction => {
                match MspPacketDirection::spec_from_byte(input) {
                    Some(d) => MspParserView {
                        state: MspParserState::DataLength,
                        direction: d,
                        ..self
                    },
                    None => Self::initial(),
                }
            },
            MspParserState::DataLength => {
                MspParserView {
                    state: MspParserState::Command,
                    remaining: input as nat,
                    data: Seq::empty(),
                    crc: self.crc ^ input,
                    ..self
                }
            },
            MspParserState::Command => {
                MspParserView {
                    state: if self.remaining == 0 {
                        MspParserState::Crc
                    } else {
                        MspParserState::Data
                    },
                    cmd: input,
                    crc: self.crc ^ input,
                    ..self
                }
            },
            MspParserState::Data => {
                MspParserView {
                    state: if self.remaining == 1 {
                        MspParserState::Crc
                    } else {
                        MspParserState::Data
                    },
                    remaining: (self.remaining - 1) as nat,
                    data: self.data.push(input),
                    crc: self.crc ^ input,
                    ..self
                }
            },
            MspParserState::Crc => Self::initial(),
        }
    }

    /// What the parser hands back for one more input byte. Only the checksum
    /// byte gives anything: the packet where it matches, an error where it
    /// does not.
    pub open spec fn outcome(self, input: u8) -> MspParseOutcome {
        if self.state == MspParserState::Crc {
            if input == self.crc {
                Ok(
                    Some(
                        MspPacketView { cmd: self.cmd, direction: self.direction, data: self.data },
                    ),
                )
            } else {
                Err(MspPacketParseError::CrcMismatch { expected: input, calculated: self.crc })
            }
        } else {
            Ok(None)
        }
    }

    /// The parser after a run of input bytes.
    pub open spec fn feed(self, bytes: Seq<u8>) -> MspParserView
        decreases bytes.len(),
    {
        if bytes.len() == 0 {
            self
        } else {
            self.feed(bytes.drop_last()).step(bytes.last())
        }
    }

    /// One input byte keeps the invariant.
    pub proof fn lemma_step_inv(self, input: u8)
        requires
            self.inv(),
        ensures
            self.step(input).inv(),
    {
        let next = self.step(input);
        match self.state {
            MspParserState::DataLength => {
                assert(0u8 ^ input == input) by (bit_vector);
            },
            MspParserState::Command => {},
            MspParserState::Data => {
                lemma_xor_fold_push(
                    (self.declared_length() as u8) ^ self.cmd,
                    self.data,
                    input,
                );
                assert(next.declared_length() == self.declared_length());
            },
            _ => {},
        }
    }
}

/// The result of a parsing step, with the packet taken by its view.
pub open spec fn outcome_view(
    r: Result<Option<MspPacket<'_>>, MspPacketParseError>,
) -> MspParseOutcome {
    match r {
        Ok(Some(p)) => Ok(Some(p@)),
        Ok(None) => Ok(None),
        Err(e) => Err(e),
    }
}

#[derive(Debug)]
/// Parser that can find packets from a raw byte stream
pub struct MspParser {
    state: MspParserState,
    packet_direction: MspPacketDirection,
    packet_cmd: u8,
    packet_data_length_remaining: usize,
    packet_data: Vec<u8>,
    packet_crc: u8,
}

impl View for MspParser {
    type V = MspParserView;

    closed spec fn view(&self) -> MspParserView {
        MspParserView {
            state: self.state,
            direction: self.packet_direction,
            cmd: self.packet_cmd,
            remaining: self.packet_data_length_remaining as nat,
            data: self.packet_data@,
            crc: self.packet_crc,
        }
    }
}

impl MspParser {
    /// The parser's invariant holds.
    pub open spec fn wf(&self) -> bool {
        self@.inv()
    }

    /// Create a new parser
    pub fn new() -> (parser: MspParser)
        ensures
            parser.wf(),
            parser@ == MspParserView::initial(),
    {
        MspParser {
            state: MspParserState::Header1,
            packet_direction: MspPacketDirection::ToFlightController,
            packet_data_length_remaining: 0,
            packet_cmd: 0,
            packet_data: Vec::new(),
            packet_crc: 0,
        }
    }

    /// Are we waiting for the header of a brand new packet?
    pub fn state_is_between_packets(&self) -> (idle: bool)
        ensures
            idle == (self@.state == MspParserState::Header1),
            idle && self.wf() ==> self@ == MspParserView::initial(),
    {
        self.state == MspParserState::Header1
    }

    /// Parse the next input byte. Returns a valid packet whenever a full packet is received, otherwise
    /// restarts the state of the parser.
    ///
    /// The packet handed back owns its payload. A byte that cannot continue
    /// the packet in progress is dropped without an error and the parser
    /// starts over; only a wrong checksum byte is reported, and the parser
    /// starts over then too.
    pub fn parse<'b>(&mut self, input: u8) -> (r: Result<
        Option<MspPacket<'b>>,
        MspPacketParseError,
    >)
        requires
            old(self).wf(),
        ensures
            final(self).wf(),
            final(self)@ == old(self)@.step(input),
            outcome_view(r) == old(self)@.outcome(input),
            r matches Ok(Some(p)) ==> p.data is Owned && p@.wf(),
    {
        proof {
            self@.lemma_step_inv(input);
        }
        match self.state {
            MspParserState::Header1 => {
                if input == MSP_HEADER1 {
                    self.state = MspParserState::Header2;
                } else {
                    self.reset();
                }
            },
            MspParserState::Header2 => {
                if input == MSP_HEADER2 {
                    self.state = MspParserState::Direction;
                } else {
                    self.reset();
                }
            },
            MspParserState::Direction => {
                match MspPacketDirection::from_byte(input) {
                    Some(d) => {
                        self.packet_direction = d;
                    },
                    None => {
                        self.reset();
                        return Ok(None);
                    },
                }
                self.state = MspParserState::DataLength;
            },
            MspParserState::DataLength => {
                self.packet_data_length_remaining = input as usize;
                self.state = MspParserState::Command;
                self.packet_crc ^= input;
                self.packet_data = Vec::with_capacity(input as usize);
            },
            MspParserState::Command => {
                self.packet_cmd = input;
                if self.packet_data_length_remaining == 0 {
                    self.state = MspParserState::Crc;
                } else {
                    self.state = MspParserState::Data;
                }
                self.packet_crc ^= input;
            },
            MspParserState::Data => {
                self.packet_data.push(input);
                self.packet_data_length_remaining -= 1;
                self.packet_crc ^= input;
                if self.packet_data_length_remaining == 0 {
                    self.state = MspParserState::Crc;
                }
            },
            MspParserState::Crc => {
                let packet_crc: u8 = self.packet_crc;
                if input != packet_crc {
                    self.reset();
                    return Err(
                        MspPacketParseError::CrcMismatch {
                            expected: input,
                            calculated: packet_crc,
                        },
                    );
                }
                let mut n: Vec<u8> = Vec::new();
                std::mem::swap(&mut self.packet_data, &mut n);
                let packet = MspPacket {
                    cmd: self.packet_cmd,
                    direction: self.packet_direction,
                    data: Cow::Owned(n),
                };
                self.reset();
                return Ok(Some(packet));
            },
        }
        Ok(None)
    }

    /// Back to the state between packets, with nothing gathered.
    fn reset(&mut self)
        ensures
            final(self)@ == MspParserView::initial(),
    {
        self.state = MspParserState::Header1;
        self.packet_direction = MspPacketDirection::ToFlightController;
        self.packet_data_length_remaining = 0;
        self.packet_cmd = 0;
        self.packet_data.clear();
        self.packet_crc = 0;
    }
}

} // verus!

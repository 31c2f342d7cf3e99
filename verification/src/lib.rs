//! Multiwii Serial Protocol (MSP) framing: a byte-at-a-time packet parser,
//! the packet serializer, and the plain data records carried in payloads.

pub mod checksum;
pub mod direction;
pub mod error;
pub mod laws;
pub mod packet;
pub mod parser;
pub mod structs;

pub use direction::MspPacketDirection;
pub use error::MspPacketParseError;
pub use packet::MspPacket;
pub use parser::MspParser;

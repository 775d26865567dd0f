//! The fixed 16-byte header that starts every frame.

use vstd::prelude::*;
use crate::bytes::{le_u32, read_le_u32, u32_le_bytes, write_le_u32, HEADER_LEN};

verus! {

/// A parsed packet header.
///
/// The three addressing words are little-endian on the wire. The last four
/// bytes carry flags and routing hints that this crate stores and hands on
/// without reading them.
#[derive(Clone, Copy, Debug, PartialEq, Eq)]
pub struct Header {
    /// Address of the node the packet is meant for (wire bytes 0 to 3).
    pub destination: u32,
    /// Address of the node that sent the packet (wire bytes 4 to 7).
    pub source: u32,
    /// Identifier the sender gave the packet (wire bytes 8 to 11).
    pub packet_id: u32,
    /// Wire bytes 12 to 15, kept as received.
    pub trailer: [u8; 4],
}

impl Header {
    /// The header that the first sixteen bytes of `bytes` encode.
    pub open spec fn parsed(bytes: Seq<u8>) -> Header {
        Header {
            destination: le_u32(bytes, 0),
            source: le_u32(bytes, 4),
            packet_id: le_u32(bytes, 8),
            trailer: [bytes[12], bytes[13], bytes[14], bytes[15]],
        }
    }

    /// The initialization vector of the packet this header belongs to: the
    /// packet identifier widened to eight little-endian bytes, then the
    /// sender's address widened the same way.
    pub open spec fn iv(self) -> Seq<u8> {
        u32_le_bytes(self.packet_id) + seq![0u8, 0u8, 0u8, 0u8] + u32_le_bytes(self.source)
            + seq![0u8, 0u8, 0u8, 0u8]
    }

    /// Parses the header at the start of `bytes`.
    ///
    /// Every sixteen bytes form a header; only a shorter input is refused.
    pub fn from_bytes(bytes: &[u8]) -> (header: Option<Header>)
        ensures
            header is Some <==> bytes@.len() >= HEADER_LEN,
            header matches Some(h) ==> h == Header::parsed(bytes@),
    {
        if bytes.len() < HEADER_LEN {
            return None;
        }
        let h = Header {
            destination: read_le_u32(bytes, 0),
            source: read_le_u32(bytes, 4),
            packet_id: read_le_u32(bytes, 8),
            trailer: [bytes[12], bytes[13], bytes[14], bytes[15]],
        };
        Some(h)
    }

    /// Derives the initialization vector for this packet.
    ///
    /// Nothing random enters: two headers with the same packet identifier
    /// and source give the same vector.
    pub fn create_iv(&self) -> (iv: [u8; 16])
        ensures
            iv@ == self.iv(),
    {
        let mut iv = [0u8; 16];
        write_le_u32(&mut iv, 0, self.packet_id);
        write_le_u32(&mut iv, 8, self.source);
        assert(iv@ =~= self.iv());
        iv
    }
}

} // verus!

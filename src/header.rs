//! The seven-byte header that correlates a request with its response.
use vstd::prelude::*;

use crate::codec::{be_u16, push_u16, read_u16, u16_of, lemma_bytes_round_trip};
use crate::result::ModbusError;

verus! {

/// Size in bytes of an encoded header.
pub const HEADER_LEN: usize = 7;

#[derive(Debug, Clone, Copy, PartialEq, Eq, Structural)]
pub struct PacketHeader {
    pub transaction_id: u16,
    /// Always zero for this protocol.
    pub protocol_identifier: u16,
    /// Byte count of the unit identifier plus the PDU that follows.
    pub length: u16,
    pub unit_identifier: u8,
}

/// Two headers correlate when all fields but `length` agree.
pub open spec fn correlates(a: PacketHeader, b: PacketHeader) -> bool {
    &&& a.transaction_id == b.transaction_id
    &&& a.protocol_identifier == b.protocol_identifier
    &&& a.unit_identifier == b.unit_identifier
}

/// The wire form of a header: its fields in order, big-endian, no padding.
pub open spec fn header_bytes(h: PacketHeader) -> Seq<u8> {
    be_u16(h.transaction_id) + be_u16(h.protocol_identifier) + be_u16(h.length) + seq![
        h.unit_identifier,
    ]
}

/// The header that the first seven bytes of `b` encode.
pub open spec fn header_of(b: Seq<u8>) -> PacketHeader
    recommends
        b.len() >= 7,
{
    PacketHeader {
        transaction_id: u16_of(b[0], b[1]),
        protocol_identifier: u16_of(b[2], b[3]),
        length: u16_of(b[4], b[5]),
        unit_identifier: b[6],
    }
}

/// What decoding `b` as a header yields.
pub open spec fn decode_header_spec(b: Seq<u8>) -> Result<PacketHeader, ModbusError> {
    if b.len() < 7 {
        Err(ModbusError::TruncatedFrame)
    } else {
        Ok(header_of(b))
    }
}

impl PacketHeader {
    /// A request header for a PDU of `pdu_len` bytes: the length also counts
    /// the unit identifier, and the protocol identifier is zero.
    pub fn build(transaction_id: u16, unit_identifier: u8, pdu_len: u16) -> (r: PacketHeader)
        requires
            pdu_len < 0xFFFF,
        ensures
            r == (PacketHeader {
                transaction_id,
                protocol_identifier: 0,
                length: (pdu_len + 1) as u16,
                unit_identifier,
            }),
    {
        PacketHeader { transaction_id, protocol_identifier: 0, length: pdu_len + 1, unit_identifier }
    }

    /// Whether `other` answers the request that `self` heads; `length` is not compared.
    pub fn header_eq(&self, other: &Self) -> (r: bool)
        ensures
            r == correlates(*self, *other),
    {
        self.transaction_id == other.transaction_id && self.protocol_identifier
            == other.protocol_identifier && self.unit_identifier == other.unit_identifier
    }

    /// The seven-byte wire form of the header.
    pub fn encode(&self) -> (r: Vec<u8>)
        ensures
            r@ == header_bytes(*self),
    {
        let mut out: Vec<u8> = Vec::new();
        push_u16(&mut out, self.transaction_id);
        push_u16(&mut out, self.protocol_identifier);
        push_u16(&mut out, self.length);
        out.push(self.unit_identifier);
        assert(out@ =~= header_bytes(*self));
        out
    }

    /// Decodes a header from the first seven bytes of `data`; bytes after them are ignored.
    pub fn decode(data: &[u8]) -> (r: Result<PacketHeader, ModbusError>)
        ensures
            r == decode_header_spec(data@),
    {
        if data.len() < HEADER_LEN {
            return Err(ModbusError::TruncatedFrame);
        }
        Ok(PacketHeader {
            transaction_id: read_u16(data, 0),
            protocol_identifier: read_u16(data, 2),
            length: read_u16(data, 4),
            unit_identifier: data[6],
        })
    }
}

/// Decoding an encoded header gives the header back.
pub proof fn lemma_header_decode_encode(h: PacketHeader)
    ensures
        header_bytes(h).len() == 7,
        decode_header_spec(header_bytes(h)) == Ok::<PacketHeader, ModbusError>(h),
{
    let b = header_bytes(h);
    assert(b.len() == 7);
    assert(u16_of(b[0], b[1]) == h.transaction_id);
    assert(u16_of(b[2], b[3]) == h.protocol_identifier);
    assert(u16_of(b[4], b[5]) == h.length);
}

/// Encoding the header that seven bytes decode to gives those bytes back.
pub proof fn lemma_header_encode_decode(b: Seq<u8>)
    requires
        b.len() == 7,
    ensures
        decode_header_spec(b) matches Ok(h) && header_bytes(h) == b,
{
    lemma_bytes_round_trip(b[0], b[1]);
    lemma_bytes_round_trip(b[2], b[3]);
    lemma_bytes_round_trip(b[4], b[5]);
    assert(header_bytes(header_of(b)) =~= b);
}

/// Correlation ignores `length`: headers that agree on the other fields
/// correlate whatever their lengths are.
pub proof fn lemma_correlation_ignores_length(a: PacketHeader, b: PacketHeader)
    requires
        a.transaction_id == b.transaction_id,
        a.protocol_identifier == b.protocol_identifier,
        a.unit_identifier == b.unit_identifier,
    ensures
        correlates(a, b),
        correlates(a, PacketHeader { length: b.length, ..a }),
{
}

} // verus!

//! The decisions of one client operation: frame the request with the next
//! transaction id, accept or refuse the response header, and turn the
//! response body into the operation's result. The caller moves the bytes.
use vstd::prelude::*;

use crate::codec::lemma_u16_round_trip;
use crate::header::{correlates, decode_header_spec, header_bytes, PacketHeader};
use crate::payload::{decode_bits, decode_bits_spec, decode_words, decode_words_spec};
use crate::request::{serialize_request, ReadRequest, WriteSingleRequest, REQUEST_PDU_LEN};
use crate::response::{read_response_spec, write_response_spec, ReadResponse, WriteSingleResponse};
use crate::result::ModbusError;

verus! {

/// The header that a request carries when `id` is the current transaction id.
pub open spec fn request_header(id: u16) -> PacketHeader {
    PacketHeader {
        transaction_id: id,
        protocol_identifier: 0,
        length: (REQUEST_PDU_LEN + 1) as u16,
        unit_identifier: 0,
    }
}

/// The transaction id that follows `id`, wrapping from 0xFFFF to 0.
pub open spec fn next_id(id: u16) -> u16 {
    ((id as int + 1) % 0x10000) as u16
}

/// The number of body bytes that follow a response header in `received`, or
/// why the response is refused.
pub open spec fn body_len_spec(sent: PacketHeader, received: Seq<u8>) -> Result<
    usize,
    ModbusError,
> {
    match decode_header_spec(received) {
        Err(e) => Err(e),
        Ok(h) => if !correlates(h, sent) {
            Err(ModbusError::MismatchedHeader)
        } else if h.length == 0 {
            Err(ModbusError::TruncatedFrame)
        } else {
            Ok((h.length - 1) as usize)
        },
    }
}

/// The register values that a read response body yields.
pub open spec fn read_registers_spec(body: Seq<u8>, sent: u8) -> Result<Seq<u16>, ModbusError> {
    match read_response_spec(body, sent) {
        Err(e) => Err(e),
        Ok(data) => decode_words_spec(data),
    }
}

/// The bit states that a read response body yields.
pub open spec fn read_bits_spec(body: Seq<u8>, req: ReadRequest) -> Result<
    Seq<bool>,
    ModbusError,
> {
    match read_response_spec(body, req.function_code) {
        Err(e) => Err(e),
        Ok(data) => decode_bits_spec(data, req.len),
    }
}

/// Whether a write response body confirms the write that was requested.
pub open spec fn write_single_spec(body: Seq<u8>, req: WriteSingleRequest) -> Result<
    (),
    ModbusError,
> {
    match write_response_spec(body, req.function_code) {
        Err(e) => Err(e),
        Ok((address, value)) => if address == req.output_address && value == req.output_value {
            Ok(())
        } else {
            Err(ModbusError::FailedWrite)
        },
    }
}

/// The transaction id of the next request; the only state kept across operations.
pub struct TransactionCounter {
    pub transaction_id: u16,
}

impl TransactionCounter {
    pub fn new() -> (r: TransactionCounter)
        ensures
            r.transaction_id == 0,
    {
        TransactionCounter { transaction_id: 0 }
    }

    /// The header of the next request; the id advances by one, wrapping.
    pub fn next_header(&mut self) -> (r: PacketHeader)
        ensures
            r == request_header(old(self).transaction_id),
            final(self).transaction_id == next_id(old(self).transaction_id),
    {
        let header = PacketHeader::build(self.transaction_id, 0, REQUEST_PDU_LEN);
        self.transaction_id = self.transaction_id.wrapping_add(1);
        header
    }

    /// The header and the whole frame of a read request.
    pub fn read_frame(&mut self, req: &ReadRequest) -> (r: (PacketHeader, Vec<u8>))
        ensures
            r.0 == request_header(old(self).transaction_id),
            r.1@ == header_bytes(r.0) + req.spec_bytes(),
            final(self).transaction_id == next_id(old(self).transaction_id),
    {
        let pdu = req.to_bytes();
        let header = self.next_header();
        let frame = serialize_request(header, pdu.as_slice());
        (header, frame)
    }

    /// The header and the whole frame of a single-write request.
    pub fn write_frame(&mut self, req: &WriteSingleRequest) -> (r: (PacketHeader, Vec<u8>))
        ensures
            r.0 == request_header(old(self).transaction_id),
            r.1@ == header_bytes(r.0) + req.spec_bytes(),
            final(self).transaction_id == next_id(old(self).transaction_id),
    {
        let pdu = req.to_bytes();
        let header = self.next_header();
        let frame = serialize_request(header, pdu.as_slice());
        (header, frame)
    }
}

/// Accepts a response header only if it correlates with the one sent, and
/// then gives the number of body bytes still to read.
pub fn expected_body_len(sent: &PacketHeader, received: &[u8]) -> (r: Result<usize, ModbusError>)
    ensures
        r == body_len_spec(*sent, received@),
{
    let header = match PacketHeader::decode(received) {
        Err(e) => { return Err(e) },
        Ok(h) => h,
    };
    if !header.header_eq(sent) {
        return Err(ModbusError::MismatchedHeader);
    }
    if header.length == 0 {
        return Err(ModbusError::TruncatedFrame);
    }
    Ok((header.length - 1) as usize)
}

/// The register values of a holding- or input-register read.
pub fn finish_read_registers(body: &[u8], req: &ReadRequest) -> (r: Result<Vec<u16>, ModbusError>)
    ensures
        match r {
            Ok(v) => read_registers_spec(body@, req.function_code) == Ok::<
                Seq<u16>,
                ModbusError,
            >(v@),
            Err(e) => read_registers_spec(body@, req.function_code) == Err::<
                Seq<u16>,
                ModbusError,
            >(e),
        },
{
    let response = match ReadResponse::parse(body, req.function_code) {
        Err(e) => { return Err(e) },
        Ok(resp) => resp,
    };
    decode_words(response.data.as_slice())
}

/// The bit states of a coil or discrete-input read.
pub fn finish_read_bits(body: &[u8], req: &ReadRequest) -> (r: Result<Vec<bool>, ModbusError>)
    ensures
        match r {
            Ok(v) => read_bits_spec(body@, *req) == Ok::<Seq<bool>, ModbusError>(v@),
            Err(e) => read_bits_spec(body@, *req) == Err::<Seq<bool>, ModbusError>(e),
        },
{
    let response = match ReadResponse::parse(body, req.function_code) {
        Err(e) => { return Err(e) },
        Ok(resp) => resp,
    };
    decode_bits(response.data.as_slice(), req.len)
}

/// Succeeds only if the response echoes the address and value that were written.
pub fn finish_write_single(body: &[u8], req: &WriteSingleRequest) -> (r: Result<(), ModbusError>)
    ensures
        r == write_single_spec(body@, *req),
{
    let response = match WriteSingleResponse::parse(body, req.function_code) {
        Err(e) => { return Err(e) },
        Ok(resp) => resp,
    };
    if response.output_address == req.output_address && response.output_value == req.output_value {
        Ok(())
    } else {
        Err(ModbusError::FailedWrite)
    }
}

/// The transaction id goes up by exactly one per request and wraps from
/// 0xFFFF to 0x0000.
pub proof fn lemma_transaction_id_step(id: u16)
    ensures
        id < 0xFFFF ==> next_id(id) == id + 1,
        id == 0xFFFF ==> next_id(id) == 0,
{
}

/// A response that echoes a single-write request byte for byte confirms the write.
pub proof fn lemma_echo_confirms_write(req: WriteSingleRequest)
    ensures
        write_single_spec(req.spec_bytes(), req) == Ok::<(), ModbusError>(()),
{
    let b = req.spec_bytes();
    lemma_u16_round_trip(req.output_address);
    lemma_u16_round_trip(req.output_value);
    assert(b[0] == req.function_code);
    assert(b[1] == crate::codec::be_u16(req.output_address)[0]);
    assert(b[2] == crate::codec::be_u16(req.output_address)[1]);
    assert(b[3] == crate::codec::be_u16(req.output_value)[0]);
    assert(b[4] == crate::codec::be_u16(req.output_value)[1]);
}

} // verus!

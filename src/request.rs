//! Request PDUs for the read and single-write operations, and their framing.
use vstd::prelude::*;

use crate::codec::{be_u16, push_u16};
use crate::header::{header_bytes, PacketHeader};
use crate::result::ModbusError;
use crate::{Address, Register};

verus! {

pub const READ_COILS: u8 = 0x01;
pub const READ_DISCRETE_INPUTS: u8 = 0x02;
pub const READ_HOLDING_REGISTERS: u8 = 0x03;
pub const READ_INPUT_REGISTERS: u8 = 0x04;
pub const WRITE_SINGLE_COIL: u8 = 0x05;
pub const WRITE_SINGLE_REGISTER: u8 = 0x06;

/// Added to a function code to mark an exception response.
pub const ERROR_FUNCTION_CODE_OFFSET: u8 = 0x80;

/// Size in bytes of either request PDU.
pub const REQUEST_PDU_LEN: u16 = 5;

/// The value a coil write puts on the wire for `on`.
pub open spec fn coil_value(on: bool) -> u16 {
    if on {
        0xFF00
    } else {
        0x0000
    }
}

/// What building a read request over `reg` with `function_code` yields.
pub open spec fn read_request_spec(function_code: u8, reg: Register) -> Result<
    ReadRequest,
    ModbusError,
> {
    if reg.end < reg.start {
        Err(ModbusError::InvalidRange)
    } else {
        Ok(
            ReadRequest {
                function_code,
                base_address: reg.start,
                len: (reg.end - reg.start) as u16,
            },
        )
    }
}

/// A request to read `len` items of one table from `base_address` on.
#[derive(Debug, Clone, Copy, PartialEq, Eq, Structural)]
pub struct ReadRequest {
    pub function_code: u8,
    pub base_address: Address,
    pub len: u16,
}

impl ReadRequest {
    /// The wire form: function code, base address, quantity.
    pub open spec fn spec_bytes(self) -> Seq<u8> {
        seq![self.function_code] + be_u16(self.base_address) + be_u16(self.len)
    }

    fn from_parts(function_code: u8, reg: Register) -> (r: Result<ReadRequest, ModbusError>)
        ensures
            r == read_request_spec(function_code, reg),
    {
        if reg.end < reg.start {
            return Err(ModbusError::InvalidRange);
        }
        Ok(ReadRequest { function_code, base_address: reg.start, len: reg.end - reg.start })
    }

    pub fn read_coils(reg: Register) -> (r: Result<ReadRequest, ModbusError>)
        ensures
            r == read_request_spec(READ_COILS, reg),
    {
        Self::from_parts(READ_COILS, reg)
    }

    pub fn read_discrete_inputs(reg: Register) -> (r: Result<ReadRequest, ModbusError>)
        ensures
            r == read_request_spec(READ_DISCRETE_INPUTS, reg),
    {
        Self::from_parts(READ_DISCRETE_INPUTS, reg)
    }

    pub fn read_holding_registers(reg: Register) -> (r: Result<ReadRequest, ModbusError>)
        ensures
            r == read_request_spec(READ_HOLDING_REGISTERS, reg),
    {
        Self::from_parts(READ_HOLDING_REGISTERS, reg)
    }

    pub fn read_input_registers(reg: Register) -> (r: Result<ReadRequest, ModbusError>)
        ensures
            r == read_request_spec(READ_INPUT_REGISTERS, reg),
    {
        Self::from_parts(READ_INPUT_REGISTERS, reg)
    }

    /// The five-byte PDU of the request.
    pub fn to_bytes(&self) -> (r: Vec<u8>)
        ensures
            r@ == self.spec_bytes(),
            r@.len() == REQUEST_PDU_LEN,
    {
        let mut out: Vec<u8> = Vec::new();
        out.push(self.function_code);
        push_u16(&mut out, self.base_address);
        push_u16(&mut out, self.len);
        assert(out@ =~= self.spec_bytes());
        out
    }
}

/// A request to write one coil or one register.
#[derive(Debug, Clone, Copy, PartialEq, Eq, Structural)]
pub struct WriteSingleRequest {
    pub function_code: u8,
    pub output_address: Address,
    pub output_value: u16,
}

impl WriteSingleRequest {
    /// The wire form: function code, address, value.
    pub open spec fn spec_bytes(self) -> Seq<u8> {
        seq![self.function_code] + be_u16(self.output_address) + be_u16(self.output_value)
    }

    /// Sets one coil; `true` goes on the wire as 0xFF00 and `false` as 0x0000.
    pub fn write_single_coil(output_address: Address, output_value: bool) -> (r:
        WriteSingleRequest)
        ensures
            r == (WriteSingleRequest {
                function_code: WRITE_SINGLE_COIL,
                output_address,
                output_value: coil_value(output_value),
            }),
    {
        let output_value: u16 = if output_value {
            0xFF00
        } else {
            0x0000
        };
        WriteSingleRequest { function_code: WRITE_SINGLE_COIL, output_address, output_value }
    }

    pub fn write_single_register(output_address: Address, output_value: u16) -> (r:
        WriteSingleRequest)
        ensures
            r == (WriteSingleRequest {
                function_code: WRITE_SINGLE_REGISTER,
                output_address,
                output_value,
            }),
    {
        WriteSingleRequest { function_code: WRITE_SINGLE_REGISTER, output_address, output_value }
    }

    /// The five-byte PDU of the request.
    pub fn to_bytes(&self) -> (r: Vec<u8>)
        ensures
            r@ == self.spec_bytes(),
            r@.len() == REQUEST_PDU_LEN,
    {
        let mut out: Vec<u8> = Vec::new();
        out.push(self.function_code);
        push_u16(&mut out, self.output_address);
        push_u16(&mut out, self.output_value);
        assert(out@ =~= self.spec_bytes());
        out
    }
}

/// A whole request frame: the encoded header followed by the PDU.
pub fn serialize_request(header: PacketHeader, pdu: &[u8]) -> (r: Vec<u8>)
    ensures
        r@ == header_bytes(header) + pdu@,
{
    let mut out = header.encode();
    let ghost head = out@;
    let mut i: usize = 0;
    while i < pdu.len()
        invariant
            i <= pdu@.len(),
            out@ == head + pdu@.subrange(0, i as int),
        decreases pdu@.len() - i,
    {
        out.push(pdu[i]);
        assert(pdu@.subrange(0, i + 1) =~= pdu@.subrange(0, i as int).push(pdu@[i as int]));
        i = i + 1;
    }
    assert(pdu@.subrange(0, pdu@.len() as int) =~= pdu@);
    out
}

} // verus!

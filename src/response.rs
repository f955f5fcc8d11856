//! Validation and decoding of response PDUs against the function code sent.
use vstd::prelude::*;

use crate::codec::{read_u16, u16_of};
use crate::payload::VarLenVec;
use crate::request::ERROR_FUNCTION_CODE_OFFSET;
use crate::result::{exception_of, ModbusError, ModbusException};
use crate::Address;

verus! {

/// How the leading bytes of a response relate to the function code sent: the
/// same code, its exception form with a fault code, or neither.
pub open spec fn status_spec(data: Seq<u8>, sent: u8) -> Result<(), ModbusError> {
    if data.len() == 0 {
        Err(ModbusError::TruncatedFrame)
    } else if data[0] == sent {
        Ok(())
    } else if data[0] as int == sent as int + 0x80 {
        if data.len() < 2 {
            Err(ModbusError::TruncatedFrame)
        } else {
            match exception_of(data[1]) {
                Some(e) => Err(ModbusError::Exception(e)),
                None => Err(ModbusError::InvalidException(data[1])),
            }
        }
    } else {
        Err(ModbusError::MismatchedFunctionCode)
    }
}

/// The payload of a read response: `byte_count` bytes after the count itself.
pub open spec fn read_response_spec(data: Seq<u8>, sent: u8) -> Result<Seq<u8>, ModbusError> {
    match status_spec(data, sent) {
        Err(e) => Err(e),
        Ok(_) => if data.len() < 2 {
            Err(ModbusError::TruncatedFrame)
        } else if data.len() - 2 < data[1] {
            Err(ModbusError::PayloadLengthMismatch)
        } else {
            Ok(data.subrange(2, 2 + data[1]))
        },
    }
}

/// The address and value of a write response.
pub open spec fn write_response_spec(data: Seq<u8>, sent: u8) -> Result<(u16, u16), ModbusError> {
    match status_spec(data, sent) {
        Err(e) => Err(e),
        Ok(_) => if data.len() < 5 {
            Err(ModbusError::TruncatedFrame)
        } else {
            Ok((u16_of(data[1], data[2]), u16_of(data[3], data[4])))
        },
    }
}

/// Checks the leading function code of a response; on an exception response
/// reads the fault code after it.
fn parse_response(data: &[u8], sent_function_code: u8) -> (r: Result<(), ModbusError>)
    ensures
        r == status_spec(data@, sent_function_code),
{
    if data.len() == 0 {
        return Err(ModbusError::TruncatedFrame);
    }
    let function_code = data[0];
    if function_code == sent_function_code {
        Ok(())
    } else if sent_function_code < ERROR_FUNCTION_CODE_OFFSET && function_code
        == sent_function_code + ERROR_FUNCTION_CODE_OFFSET {
        if data.len() < 2 {
            return Err(ModbusError::TruncatedFrame);
        }
        let exception_code = data[1];
        match ModbusException::try_from(exception_code) {
            Ok(e) => Err(ModbusError::Exception(e)),
            Err(_) => Err(ModbusError::InvalidException(exception_code)),
        }
    } else {
        Err(ModbusError::MismatchedFunctionCode)
    }
}

/// A decoded read response.
#[derive(Debug, Clone)]
pub struct ReadResponse {
    pub function_code: u8,
    pub data: Vec<u8>,
}

impl ReadResponse {
    /// Validates `data` against the function code sent and takes the
    /// length-prefixed payload; bytes after the payload are ignored.
    pub fn parse(data: &[u8], sent_function_code: u8) -> (r: Result<ReadResponse, ModbusError>)
        ensures
            match r {
                Ok(resp) => resp.function_code == sent_function_code && read_response_spec(
                    data@,
                    sent_function_code,
                ) == Ok::<Seq<u8>, ModbusError>(resp.data@),
                Err(e) => read_response_spec(data@, sent_function_code) == Err::<
                    Seq<u8>,
                    ModbusError,
                >(e),
            },
    {
        match parse_response(data, sent_function_code) {
            Err(e) => { return Err(e) },
            Ok(()) => {},
        }
        if data.len() < 2 {
            return Err(ModbusError::TruncatedFrame);
        }
        let byte_count = data[1] as usize;
        let rest = vstd::slice::slice_subrange(data, 2, data.len());
        match VarLenVec::new(byte_count).decode_bytes(rest) {
            Err(e) => Err(e),
            Ok(payload) => {
                assert(rest@.subrange(0, byte_count as int) =~= data@.subrange(
                    2,
                    2 + byte_count,
                ));
                Ok(ReadResponse { function_code: sent_function_code, data: payload })
            },
        }
    }
}

/// A decoded single-write response.
#[derive(Debug, Clone, Copy, PartialEq, Eq, Structural)]
pub struct WriteSingleResponse {
    pub function_code: u8,
    pub output_address: Address,
    pub output_value: u16,
}

impl WriteSingleResponse {
    /// Validates `data` against the function code sent and decodes the
    /// address and value that follow it.
    pub fn parse(data: &[u8], sent_function_code: u8) -> (r: Result<
        WriteSingleResponse,
        ModbusError,
    >)
        ensures
            match r {
                Ok(resp) => resp.function_code == sent_function_code && write_response_spec(
                    data@,
                    sent_function_code,
                ) == Ok::<(u16, u16), ModbusError>((resp.output_address, resp.output_value)),
                Err(e) => write_response_spec(data@, sent_function_code) == Err::<
                    (u16, u16),
                    ModbusError,
                >(e),
            },
    {
        match parse_response(data, sent_function_code) {
            Err(e) => { return Err(e) },
            Ok(()) => {},
        }
        if data.len() < 5 {
            return Err(ModbusError::TruncatedFrame);
        }
        Ok(
            WriteSingleResponse {
                function_code: sent_function_code,
                output_address: read_u16(data, 1),
                output_value: read_u16(data, 3),
            },
        )
    }
}

} // verus!

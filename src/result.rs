use vstd::prelude::*;

verus! {

/// A fault that a device reports in an exception response.
#[derive(Debug, Clone, Copy, PartialEq, Eq, Structural)]
pub enum ModbusException {
    IllegalFunction,
    IllegalDataAddress,
    IllegalDataValue,
    ServerDeviceFailure,
    Acknowledge,
    ServerDeviceBusy,
    MemoryParityError,
    GatewayPathUnavailable,
    GatewayTargetDeviceFailedToRespond,
}

/// Everything that can go wrong in building a request or in validating and
/// decoding a response.
#[derive(Debug, Clone, Copy, PartialEq, Eq, Structural)]
pub enum ModbusError {
    /// The response's function code is neither the one sent nor its exception form.
    MismatchedFunctionCode,
    /// The response header does not correlate with the request header.
    MismatchedHeader,
    /// The device rejected the request with a known fault.
    Exception(ModbusException),
    /// The device rejected the request with a code outside the known table.
    InvalidException(u8),
    /// The device echoed another address or value than the one written.
    FailedWrite,
    /// Fewer bytes than a fixed-size structure needs.
    TruncatedFrame,
    /// Fewer payload bytes than the transmitted length prefix declares.
    PayloadLengthMismatch,
    /// A register payload whose byte length is odd.
    OddByteLength,
    /// A register range whose end lies before its start.
    InvalidRange,
}

/// The fault that an exception code stands for, if the code is in the table.
pub open spec fn exception_of(code: u8) -> Option<ModbusException> {
    if code == 0x01 {
        Some(ModbusException::IllegalFunction)
    } else if code == 0x02 {
        Some(ModbusException::IllegalDataAddress)
    } else if code == 0x03 {
        Some(ModbusException::IllegalDataValue)
    } else if code == 0x04 {
        Some(ModbusException::ServerDeviceFailure)
    } else if code == 0x05 {
        Some(ModbusException::Acknowledge)
    } else if code == 0x06 {
        Some(ModbusException::ServerDeviceBusy)
    } else if code == 0x08 {
        Some(ModbusException::MemoryParityError)
    } else if code == 0x0A {
        Some(ModbusException::GatewayPathUnavailable)
    } else if code == 0x0B {
        Some(ModbusException::GatewayTargetDeviceFailedToRespond)
    } else {
        None
    }
}

impl ModbusException {
    /// Maps an exception code to its fault; codes outside the table are refused.
    pub fn try_from(value: u8) -> (r: Result<ModbusException, ()>)
        ensures
            r matches Ok(e) ==> exception_of(value) == Some(e),
            r is Err <==> exception_of(value) is None,
    {
        match value {
            0x01 => Ok(ModbusException::IllegalFunction),
            0x02 => Ok(ModbusException::IllegalDataAddress),
            0x03 => Ok(ModbusException::IllegalDataValue),
            0x04 => Ok(ModbusException::ServerDeviceFailure),
            0x05 => Ok(ModbusException::Acknowledge),
            0x06 => Ok(ModbusException::ServerDeviceBusy),
            0x08 => Ok(ModbusException::MemoryParityError),
            0x0A => Ok(ModbusException::GatewayPathUnavailable),
            0x0B => Ok(ModbusException::GatewayTargetDeviceFailedToRespond),
            _ => Err(()),
        }
    }
}

} // verus!

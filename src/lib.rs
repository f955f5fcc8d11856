//! Client-side codec and response validation for the Modbus/TCP wire protocol.
//!
//! The library builds request frames, correlates response headers with the
//! requests that were sent, decodes response bodies (including device
//! exceptions) and unpacks register and bit payloads. Reading and writing the
//! transport is left to the caller.
use vstd::prelude::*;

pub mod result;
pub mod codec;
pub mod header;
pub mod request;
pub mod payload;
pub mod response;
pub mod client;

pub use result::{ModbusError, ModbusException};
pub use header::PacketHeader;
pub use request::{serialize_request, ReadRequest, WriteSingleRequest};
pub use payload::{FixedLenVec, VarLenVec};
pub use response::{ReadResponse, WriteSingleResponse};
pub use client::TransactionCounter;

verus! {

/// A register address on the device.
pub type Address = u16;

/// A half-open range of addresses, `start..end`.
pub type Register = core::ops::Range<Address>;

} // verus!

use bincode::Options;
use modbus_client::client::{
    expected_body_len, finish_read_bits, finish_read_registers, finish_write_single,
    TransactionCounter,
};
use modbus_client::payload::{decode_bits, decode_words, FixedLenVec, VarLenVec};
use modbus_client::request::{serialize_request, ReadRequest, WriteSingleRequest};
use modbus_client::response::{ReadResponse, WriteSingleResponse};
use modbus_client::{ModbusError, ModbusException, PacketHeader};

#[test]
fn sanity_check() {
    let opts = bincode::options().with_big_endian().with_fixint_encoding();
    let mut serialized = Vec::new();

    opts.serialize_into(&mut serialized, &4usize).unwrap();
    opts.serialize_into(&mut serialized, &1u8).unwrap();
    opts.serialize_into(&mut serialized, &2u8).unwrap();
    opts.serialize_into(&mut serialized, &3u8).unwrap();
    opts.serialize_into(&mut serialized, &4u8).unwrap();
    opts.serialize_into(&mut serialized, &0u8).unwrap();

    let mut serialized = &serialized[..];

    let data_len: usize = opts.deserialize_from(&mut serialized).unwrap();
    let deserialized: Vec<u8> = FixedLenVec::new(data_len).decode_bytes(serialized).unwrap();
    assert_eq!(deserialized, vec![1, 2, 3, 4]);
}

#[test]
fn fixed_len_vec_short_input_is_truncated() {
    assert_eq!(FixedLenVec::new(3).decode_bytes(&[1, 2]), Err(ModbusError::TruncatedFrame));
}

#[test]
fn var_len_vec_short_input_is_length_mismatch() {
    assert_eq!(VarLenVec::new(3).decode_bytes(&[1, 2]), Err(ModbusError::PayloadLengthMismatch));
    assert_eq!(VarLenVec::new(2).decode_words(&[0, 1, 0]), Err(ModbusError::PayloadLengthMismatch));
    assert_eq!(VarLenVec::new(1).decode_words(&[0x12, 0x34, 0x56]), Ok(vec![0x1234]));
}

#[test]
fn header_encodes_big_endian() {
    let h = PacketHeader { transaction_id: 0x1234, protocol_identifier: 0, length: 6, unit_identifier: 0xAB };
    assert_eq!(h.encode(), vec![0x12, 0x34, 0x00, 0x00, 0x00, 0x06, 0xAB]);
}

#[test]
fn header_round_trip() {
    let bytes = [0xFF, 0xFE, 0x00, 0x01, 0x01, 0x00, 0x07];
    let h = PacketHeader::decode(&bytes).unwrap();
    assert_eq!(h.transaction_id, 0xFFFE);
    assert_eq!(h.protocol_identifier, 1);
    assert_eq!(h.length, 0x100);
    assert_eq!(h.unit_identifier, 7);
    assert_eq!(h.encode(), bytes.to_vec());
    let h2 = PacketHeader { transaction_id: 9, protocol_identifier: 0, length: 300, unit_identifier: 2 };
    assert_eq!(PacketHeader::decode(&h2.encode()), Ok(h2));
}

#[test]
fn header_decode_short_is_truncated() {
    assert_eq!(PacketHeader::decode(&[0, 1, 0, 0, 0, 6]), Err(ModbusError::TruncatedFrame));
}

#[test]
fn correlation_ignores_length() {
    let a = PacketHeader { transaction_id: 5, protocol_identifier: 0, length: 6, unit_identifier: 1 };
    let b = PacketHeader { length: 9, ..a };
    assert!(a.header_eq(&b));
    let c = PacketHeader { transaction_id: 6, ..a };
    assert!(!a.header_eq(&c));
    let d = PacketHeader { unit_identifier: 2, ..a };
    assert!(!a.header_eq(&d));
}

#[test]
fn build_header_counts_unit_id() {
    let h = PacketHeader::build(3, 4, 5);
    assert_eq!(h, PacketHeader { transaction_id: 3, protocol_identifier: 0, length: 6, unit_identifier: 4 });
}

#[test]
fn word_decode() {
    assert_eq!(decode_words(&[0x00, 0x0A, 0x00, 0x14]), Ok(vec![10, 20]));
    assert_eq!(decode_words(&[]), Ok(vec![]));
}

#[test]
fn odd_word_payload_fails() {
    assert_eq!(decode_words(&[0x00, 0x0A, 0x00]), Err(ModbusError::OddByteLength));
    let req = ReadRequest::read_holding_registers(0..2).unwrap();
    assert_eq!(
        finish_read_registers(&[0x03, 0x03, 0x00, 0x0A, 0x00], &req),
        Err(ModbusError::OddByteLength)
    );
}

#[test]
fn bit_decode_drops_padding() {
    assert_eq!(decode_bits(&[0b0000_0101], 3), Ok(vec![true, false, true]));
}

#[test]
fn bit_decode_uses_all_eight_bits() {
    assert_eq!(
        decode_bits(&[0b1000_0001, 0b0000_0010], 10),
        Ok(vec![true, false, false, false, false, false, false, true, false, true])
    );
    assert_eq!(decode_bits(&[0xFF], 8), Ok(vec![true; 8]));
    assert_eq!(decode_bits(&[], 0), Ok(vec![]));
}

#[test]
fn bit_decode_without_bytes_fails() {
    assert_eq!(decode_bits(&[], 3), Err(ModbusError::PayloadLengthMismatch));
}

#[test]
fn bit_decode_short_payload_fails() {
    assert_eq!(decode_bits(&[0xFF], 16), Err(ModbusError::PayloadLengthMismatch));
    assert_eq!(decode_bits(&[0x07], 11), Err(ModbusError::PayloadLengthMismatch));
    let coils = ReadRequest::read_coils(0..16).unwrap();
    assert_eq!(finish_read_bits(&[0x01, 0x01, 0xFF], &coils), Err(ModbusError::PayloadLengthMismatch));
}

#[test]
fn bit_decode_keeps_requested_quantity() {
    assert_eq!(decode_bits(&[0xFF, 0xFF], 8), Ok(vec![true; 8]));
}

#[test]
fn read_requests_have_their_function_codes() {
    let r = ReadRequest::read_coils(10..13).unwrap();
    assert_eq!(r, ReadRequest { function_code: 0x01, base_address: 10, len: 3 });
    assert_eq!(ReadRequest::read_discrete_inputs(0..1).unwrap().function_code, 0x02);
    assert_eq!(ReadRequest::read_holding_registers(0..1).unwrap().function_code, 0x03);
    assert_eq!(ReadRequest::read_input_registers(1065..1072).unwrap().len, 7);
    assert_eq!(ReadRequest::read_input_registers(1065..1072).unwrap().function_code, 0x04);
}

#[test]
fn reversed_range_is_invalid() {
    assert_eq!(ReadRequest::read_coils(5..4), Err(ModbusError::InvalidRange));
}

#[test]
fn read_request_bytes() {
    let r = ReadRequest::read_input_registers(1065..1072).unwrap();
    assert_eq!(r.to_bytes(), vec![0x04, 0x04, 0x29, 0x00, 0x07]);
}

#[test]
fn coil_write_value_normalization() {
    let on = WriteSingleRequest::write_single_coil(7, true);
    assert_eq!(on.output_value, 0xFF00);
    assert_eq!(on.function_code, 0x05);
    assert_eq!(on.to_bytes(), vec![0x05, 0x00, 0x07, 0xFF, 0x00]);
    let off = WriteSingleRequest::write_single_coil(7, false);
    assert_eq!(off.output_value, 0x0000);
    assert_eq!(off.to_bytes(), vec![0x05, 0x00, 0x07, 0x00, 0x00]);
}

#[test]
fn register_write_request() {
    let w = WriteSingleRequest::write_single_register(0x0102, 0xBEEF);
    assert_eq!(w.function_code, 0x06);
    assert_eq!(w.to_bytes(), vec![0x06, 0x01, 0x02, 0xBE, 0xEF]);
}

#[test]
fn frame_is_header_then_pdu() {
    let h = PacketHeader::build(1, 0, 5);
    let frame = serialize_request(h, &[0x03, 0x00, 0x00, 0x00, 0x02]);
    assert_eq!(frame, vec![0x00, 0x01, 0x00, 0x00, 0x00, 0x06, 0x00, 0x03, 0x00, 0x00, 0x00, 0x02]);
}

#[test]
fn exception_response_decodes_fault() {
    assert_eq!(
        ReadResponse::parse(&[0x83, 0x02], 0x03).unwrap_err(),
        ModbusError::Exception(ModbusException::IllegalDataAddress)
    );
    assert_eq!(
        WriteSingleResponse::parse(&[0x86, 0x0B], 0x06),
        Err(ModbusError::Exception(ModbusException::GatewayTargetDeviceFailedToRespond))
    );
}

#[test]
fn unknown_exception_code_is_unrecognized() {
    assert_eq!(ReadResponse::parse(&[0x83, 0x99], 0x03).unwrap_err(), ModbusError::InvalidException(0x99));
    assert_eq!(ReadResponse::parse(&[0x83, 0x07], 0x03).unwrap_err(), ModbusError::InvalidException(0x07));
}

#[test]
fn unrelated_function_code_is_mismatch() {
    assert_eq!(ReadResponse::parse(&[0x99, 0x02], 0x03).unwrap_err(), ModbusError::MismatchedFunctionCode);
    assert_eq!(ReadResponse::parse(&[0x04, 0x00], 0x03).unwrap_err(), ModbusError::MismatchedFunctionCode);
}

#[test]
fn empty_or_short_response_is_truncated() {
    assert_eq!(ReadResponse::parse(&[], 0x03).unwrap_err(), ModbusError::TruncatedFrame);
    assert_eq!(ReadResponse::parse(&[0x03], 0x03).unwrap_err(), ModbusError::TruncatedFrame);
    assert_eq!(ReadResponse::parse(&[0x83], 0x03).unwrap_err(), ModbusError::TruncatedFrame);
    assert_eq!(WriteSingleResponse::parse(&[0x06, 0x00, 0x01, 0x00], 0x06), Err(ModbusError::TruncatedFrame));
}

#[test]
fn read_response_takes_declared_payload() {
    let r = ReadResponse::parse(&[0x03, 0x02, 0xAA, 0xBB, 0xCC], 0x03).unwrap();
    assert_eq!(r.function_code, 0x03);
    assert_eq!(r.data, vec![0xAA, 0xBB]);
    assert_eq!(
        ReadResponse::parse(&[0x03, 0x04, 0xAA, 0xBB], 0x03).unwrap_err(),
        ModbusError::PayloadLengthMismatch
    );
}

#[test]
fn transaction_id_increments_and_wraps() {
    let mut c = TransactionCounter::new();
    assert_eq!(c.next_header().transaction_id, 0);
    assert_eq!(c.next_header().transaction_id, 1);
    assert_eq!(c.transaction_id, 2);
    c.transaction_id = 0xFFFF;
    let h = c.next_header();
    assert_eq!(h.transaction_id, 0xFFFF);
    assert_eq!(h.length, 6);
    assert_eq!(c.transaction_id, 0x0000);
}

#[test]
fn read_frame_layout() {
    let mut c = TransactionCounter::new();
    c.transaction_id = 0x0102;
    let req = ReadRequest::read_holding_registers(0..2).unwrap();
    let (h, frame) = c.read_frame(&req);
    assert_eq!(h.transaction_id, 0x0102);
    assert_eq!(frame, vec![0x01, 0x02, 0x00, 0x00, 0x00, 0x06, 0x00, 0x03, 0x00, 0x00, 0x00, 0x02]);
    assert_eq!(c.transaction_id, 0x0103);
    let w = WriteSingleRequest::write_single_coil(1, true);
    let (_, frame) = c.write_frame(&w);
    assert_eq!(frame, vec![0x01, 0x03, 0x00, 0x00, 0x00, 0x06, 0x00, 0x05, 0x00, 0x01, 0xFF, 0x00]);
}

#[test]
fn mismatched_header_is_refused() {
    let sent = PacketHeader::build(7, 0, 5);
    let other = PacketHeader { transaction_id: 8, protocol_identifier: 0, length: 7, unit_identifier: 0 };
    assert_eq!(expected_body_len(&sent, &other.encode()), Err(ModbusError::MismatchedHeader));
    let good = PacketHeader { length: 7, ..sent };
    assert_eq!(expected_body_len(&sent, &good.encode()), Ok(6));
    let empty = PacketHeader { length: 0, ..sent };
    assert_eq!(expected_body_len(&sent, &empty.encode()), Err(ModbusError::TruncatedFrame));
    assert_eq!(expected_body_len(&sent, &[0, 7, 0]), Err(ModbusError::TruncatedFrame));
}

#[test]
fn write_single_round_trip() {
    let req = WriteSingleRequest::write_single_register(100, 1);
    assert_eq!(finish_write_single(&[0x06, 0x00, 0x64, 0x00, 0x01], &req), Ok(()));
    assert_eq!(finish_write_single(&[0x06, 0x00, 0x64, 0x00, 0x00], &req), Err(ModbusError::FailedWrite));
}

#[test]
fn finish_reads() {
    let req = ReadRequest::read_input_registers(0..2).unwrap();
    assert_eq!(finish_read_registers(&[0x04, 0x04, 0x00, 0x0A, 0x00, 0x14], &req), Ok(vec![10, 20]));
    let coils = ReadRequest::read_coils(0..3).unwrap();
    assert_eq!(finish_read_bits(&[0x01, 0x01, 0b0000_0101], &coils), Ok(vec![true, false, true]));
    assert_eq!(
        finish_read_bits(&[0x81, 0x04], &coils),
        Err(ModbusError::Exception(ModbusException::ServerDeviceFailure))
    );
}

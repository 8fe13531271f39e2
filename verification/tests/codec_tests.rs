use hms2mqtt::codec::decode;
use hms2mqtt::codec::encode;
use hms2mqtt::codec::DecodeError;

fn preamble() -> Vec<u8> {
    vec![0u8; 10]
}

/// A full response frame around the given payload bytes.
fn frame(payload: &[u8]) -> Vec<u8> {
    let mut buf = preamble();
    buf.extend_from_slice(payload);
    buf
}

#[test]
fn request_crc_over_empty_payload_is_the_modbus_initial_value() {
    // the checksum bytes of every request frame are the CRC16/MODBUS of the
    // empty request payload, which is the initial value 0xFFFF
    let msg = encode(0);
    assert_eq!(msg[6], 0xFF);
    assert_eq!(msg[7], 0xFF);
}

#[test]
fn encode_layout_is_ten_bytes_with_documented_preamble() {
    let msg = encode(0x1234);
    assert_eq!(msg, vec![0x48, 0x4D, 0xA3, 0x03, 0x12, 0x34, 0xFF, 0xFF, 0x00, 0x0A]);
    assert_eq!(msg.len(), 10);
}

#[test]
fn encode_covers_the_whole_sequence_range() {
    assert_eq!(encode(0)[4..6], [0x00, 0x00]);
    assert_eq!(encode(65535)[4..6], [0xFF, 0xFF]);
    for sequence in [0u16, 1, 255, 256, 32768, 65535] {
        assert_eq!(encode(sequence).len(), 10);
    }
}

#[test]
fn decode_empty_buffer_fails() {
    assert!(matches!(decode(&[]), Err(DecodeError::DecodeFailed)));
}

#[test]
fn decode_buffer_shorter_than_preamble_fails() {
    let buf = [0x48, 0x4D, 0xA3, 0x03, 0x00, 0x01, 0xFF, 0xFF, 0x00];
    assert!(matches!(decode(&buf), Err(DecodeError::DecodeFailed)));
}

#[test]
fn decode_truncated_field_fails() {
    // field 1 announces sixteen serial bytes but the buffer ends after two
    let buf = frame(&[0x0A, 0x10, b'1', b'2']);
    assert!(matches!(decode(&buf), Err(DecodeError::DecodeFailed)));
    // a varint cut off mid-continuation
    let buf = frame(&[0x10, 0xF4]);
    assert!(matches!(decode(&buf), Err(DecodeError::DecodeFailed)));
}

#[test]
fn decode_bare_preamble_gives_the_empty_record() {
    let rec = decode(&preamble()).expect("empty payload decodes");
    assert_eq!(rec.dtu_sn, "");
    assert_eq!(rec.pv_current_power, 0);
    assert_eq!(rec.pv_daily_yield, 0);
    assert_eq!(rec.port_state.len(), 0);
    assert_eq!(rec.inverter_state.len(), 0);
}

#[test]
fn decode_full_record() {
    let mut payload: Vec<u8> = Vec::new();
    // field 1: serial "1234567890123456"
    payload.extend_from_slice(&[0x0A, 0x10]);
    payload.extend_from_slice(b"1234567890123456");
    // field 2: aggregate power 500
    payload.extend_from_slice(&[0x10, 0xF4, 0x03]);
    // field 3: daily yield 1200
    payload.extend_from_slice(&[0x18, 0xB0, 0x09]);
    // field 4: one port reading {port 1, voltage 2300, power 1000}
    payload.extend_from_slice(&[0x22, 0x08, 0x08, 0x01, 0x10, 0xFC, 0x11, 0x20, 0xE8, 0x07]);
    // field 5: one inverter reading {port 1, grid voltage 2290}
    payload.extend_from_slice(&[0x2A, 0x05, 0x08, 0x01, 0x10, 0xF2, 0x11]);
    let buf = frame(&payload);
    let rec = decode(&buf).expect("well-formed payload decodes");
    assert_eq!(rec.dtu_sn, "1234567890123456");
    assert_eq!(rec.pv_current_power, 500);
    assert_eq!(rec.pv_daily_yield, 1200);
    assert_eq!(rec.port_state.len(), 1);
    assert_eq!(rec.port_state[0].pv_port, 1);
    assert_eq!(rec.port_state[0].pv_vol, 2300);
    assert_eq!(rec.port_state[0].pv_power, 1000);
    assert_eq!(rec.port_state[0].pv_cur, 0);
    assert_eq!(rec.inverter_state.len(), 1);
    assert_eq!(rec.inverter_state[0].port_id, 1);
    assert_eq!(rec.inverter_state[0].grid_voltage, 2290);
}

#[test]
fn decode_round_trips_a_variable_number_of_readings() {
    // two ports and no inverter: the entry counts are data, not an error
    let mut payload: Vec<u8> = Vec::new();
    payload.extend_from_slice(&[0x22, 0x02, 0x08, 0x01]);
    payload.extend_from_slice(&[0x22, 0x02, 0x08, 0x02]);
    let rec = decode(&frame(&payload)).expect("two ports decode");
    assert_eq!(rec.port_state.len(), 2);
    assert_eq!(rec.port_state[0].pv_port, 1);
    assert_eq!(rec.port_state[1].pv_port, 2);
    assert_eq!(rec.inverter_state.len(), 0);
}

#[test]
fn decode_skips_unknown_fields() {
    // field 9 varint, field 8 length-delimited, field 7 fixed32: all skipped
    let payload =
        [0x48, 0x2A, 0x42, 0x03, 0x01, 0x02, 0x03, 0x3D, 0x01, 0x02, 0x03, 0x04, 0x10, 0x07];
    let rec = decode(&frame(&payload)).expect("unknown fields are skipped");
    assert_eq!(rec.pv_current_power, 7);
}

#[test]
fn decode_rejects_non_ascii_serial() {
    let payload = [0x0A, 0x02, 0xC3, 0xA9];
    assert!(matches!(decode(&frame(&payload)), Err(DecodeError::DecodeFailed)));
}

#[test]
fn decode_rejects_register_beyond_32_bits() {
    // field 2 with the varint 2^35
    let payload = [0x10, 0x80, 0x80, 0x80, 0x80, 0x80, 0x01];
    assert!(matches!(decode(&frame(&payload)), Err(DecodeError::DecodeFailed)));
}

#[test]
fn decode_rejects_invalid_wire_type() {
    // wire type 3 (group start) exists in no message of this protocol
    let payload = [0x0B];
    assert!(matches!(decode(&frame(&payload)), Err(DecodeError::DecodeFailed)));
}

#[test]
fn decode_last_value_wins_for_repeated_scalar_fields() {
    let payload = [0x10, 0x01, 0x10, 0x02];
    let rec = decode(&frame(&payload)).expect("repeated scalar decodes");
    assert_eq!(rec.pv_current_power, 2);
}

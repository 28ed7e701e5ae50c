//! Frame codec: request bytes, CRC values, response parsing.

use xypsu::codec;

#[test]
fn write_single_request_has_exact_bytes() {
    // Writing register 0x10 with value 0x1234 under unit id 0x01.
    let frame = codec::build_write_single_request(0x01, 0x10, 0x1234);
    assert_eq!(frame, vec![0x01, 0x06, 0x00, 0x10, 0x12, 0x34, 0x85, 0x78]);
}

#[test]
fn read_request_has_exact_bytes() {
    // Reading holding register 0x20, count 1, under unit id 0x01.
    let frame = codec::build_read_request(0x01, 0x20, 1);
    assert_eq!(frame, vec![0x01, 0x03, 0x00, 0x20, 0x00, 0x01, 0x85, 0xC0]);
}

#[test]
fn write_single_round_trips_address_and_value() {
    // The encoded frame carries the address and value fields verbatim.
    let frame = codec::build_write_single_request(0x01, 0xABCD, 0x1357);
    let addr = ((frame[2] as u16) << 8) | frame[3] as u16;
    let value = ((frame[4] as u16) << 8) | frame[5] as u16;
    assert_eq!(addr, 0xABCD);
    assert_eq!(value, 0x1357);
}

#[test]
fn crc16_matches_known_vectors() {
    // The CRC trailer of the known write frame, low byte first.
    assert_eq!(codec::crc16(&[0x01, 0x06, 0x00, 0x10, 0x12, 0x34]), 0x7885);
    // The CRC trailer of the known read response.
    assert_eq!(codec::crc16(&[0x01, 0x03, 0x02, 0x56, 0x78]), 0xC687);
    assert_eq!(codec::crc16(&[]), 0xFFFF);
}

#[test]
fn parse_read_response_extracts_value() {
    let response = [0x01, 0x03, 0x02, 0x56, 0x78, 0x87, 0xC6];
    let values = codec::parse_read_response(&response, 0x01, 1).unwrap();
    assert_eq!(values, vec![0x5678]);
}

#[test]
fn parse_read_response_rejects_bad_crc() {
    let response = [0x01, 0x03, 0x02, 0x56, 0x78, 0x00, 0x00];
    let result = codec::parse_read_response(&response, 0x01, 1);
    assert_eq!(result, Err(xypsu::error::Error::InvalidResponse));
}

#[test]
fn parse_read_response_rejects_wrong_unit_and_shape() {
    // Wrong unit id.
    let response = [0x02, 0x03, 0x02, 0x56, 0x78, 0x87, 0xC6];
    assert!(codec::parse_read_response(&response, 0x01, 1).is_err());
    // Truncated frame.
    let response = [0x01, 0x03, 0x02, 0x56];
    assert!(codec::parse_read_response(&response, 0x01, 1).is_err());
}

#[test]
fn bulk_write_request_layout() {
    let frame = codec::build_write_bulk_request(0x01, 0x0080, &vec![0x0102, 0x0304]);
    // Header: unit, function 0x10, address, register count, byte count.
    assert_eq!(&frame[..7], &[0x01, 0x10, 0x00, 0x80, 0x00, 0x02, 0x04]);
    // Payload: the registers big-endian.
    assert_eq!(&frame[7..11], &[0x01, 0x02, 0x03, 0x04]);
    // Trailer: the CRC of everything before it, low byte first.
    let crc = codec::crc16(&frame[..11]);
    assert_eq!(frame[11], (crc & 0xFF) as u8);
    assert_eq!(frame[12], (crc >> 8) as u8);
}

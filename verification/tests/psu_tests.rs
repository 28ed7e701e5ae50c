//! Transaction engine and device facade, over the mock transport.

use xypsu::codec;
use xypsu::error::Error;
use xypsu::mock_serial::MockSerial;
use xypsu::preset::ProtectionConfig;
use xypsu::psu::XyPsu;
use xypsu::register::{Temperature, XyRegister};
use xypsu::scaling::ScalingFactors;

/// A read-holding-registers response frame carrying `values`, CRC included.
fn read_response(unit_id: u8, values: &[u16]) -> Vec<u8> {
    let mut frame = vec![unit_id, 0x03, (2 * values.len()) as u8];
    for v in values {
        frame.push((v >> 8) as u8);
        frame.push((v & 0xFF) as u8);
    }
    let crc = codec::crc16(&frame);
    frame.push((crc & 0xFF) as u8);
    frame.push((crc >> 8) as u8);
    frame
}

#[test]
fn test_write_modbus_single() {
    let mut mock_serial = MockSerial::new();
    let ideal_written = [0x01, 0x06, 0x00, 0x10, 0x12, 0x34, 0x85, 0x78];
    mock_serial.set_read_data(ideal_written.as_slice()).unwrap();

    let mut psu: XyPsu<MockSerial> = XyPsu::new(mock_serial, 0x01);

    // Test writing to register 0x10 with value 0x1234.
    let result = psu.write_modbus_single(0x10, 0x1234);
    assert!(result.is_ok());

    // Check that the correct Modbus RTU frame was written.
    let mock_serial = psu.into_inner();
    let written_data = mock_serial.written_data();
    assert!(!written_data.is_empty());
    assert_eq!(written_data, ideal_written.as_slice());
    assert_eq!(written_data.len(), 8); // Total frame length.
}

#[test]
fn test_read_modbus_single_bad_crc() {
    let mut mock_serial = MockSerial::new();

    // A response for register 0x20 with value 0x5678, but a wrong CRC.
    let response_data = [0x01, 0x03, 0x02, 0x56, 0x78, 0x00, 0x00];
    mock_serial.set_read_data(&response_data).unwrap();

    let mut psu: XyPsu<MockSerial> = XyPsu::new(mock_serial, 0x01);

    let result = psu.read_modbus_single(0x20);

    // The CRC mismatch must surface as an invalid response, never a value.
    assert_eq!(result, Err(Error::InvalidResponse));

    // Check that the request was written correctly.
    let mock_serial = psu.into_inner();
    let written_data = mock_serial.written_data();
    assert!(!written_data.is_empty());

    // Expected request frame for reading register 0x0020, count 1.
    assert_eq!(written_data[0], 0x01); // Unit ID.
    assert_eq!(written_data[1], 0x03); // Function code for read holding registers.
    assert_eq!(written_data[2], 0x00); // Register high byte.
    assert_eq!(written_data[3], 0x20); // Register low byte.
    assert_eq!(written_data[4], 0x00); // Count high byte.
    assert_eq!(written_data[5], 0x01); // Count low byte.
    assert_eq!(written_data.len(), 8); // Total frame length.
}

#[test]
fn test_read_modbus_single() {
    let mut mock_serial = MockSerial::new();

    // A proper response for reading register 0x20 with value 0x5678.
    let response_data = [0x01, 0x03, 0x02, 0x56, 0x78, 0x87, 0xC6];
    mock_serial.set_read_data(&response_data).unwrap();

    let mut psu: XyPsu<MockSerial> = XyPsu::new(mock_serial, 0x01);

    let result = psu.read_modbus_single(0x20);
    assert_eq!(result, Ok(0x5678));

    // Check that the request was written correctly.
    let mock_serial = psu.into_inner();
    let written_data = mock_serial.written_data();
    assert!(!written_data.is_empty());

    // Expected request frame for reading register 0x0020, count 1.
    assert_eq!(written_data[0], 0x01); // Unit ID.
    assert_eq!(written_data[1], 0x03); // Function code for read holding registers.
    assert_eq!(written_data[2], 0x00); // Register high byte.
    assert_eq!(written_data[3], 0x20); // Register low byte.
    assert_eq!(written_data[4], 0x00); // Count high byte.
    assert_eq!(written_data[5], 0x01); // Count low byte.
    assert_eq!(written_data[6], 0x85); // CRC low byte.
    assert_eq!(written_data[7], 0xC0); // CRC high byte.
    assert_eq!(written_data.len(), 8); // Total frame length.
}

#[test]
fn test_read_output_voltage() {
    let mut mock_serial = MockSerial::new();

    // A response for reading register 0x02 (the measured output voltage)
    // with raw value 500 (0x01F4).
    let response_data = [0x01, 0x03, 0x02, 0x01, 0xF4, 0xB8, 0x53];
    mock_serial.set_read_data(&response_data).unwrap();

    let mut psu: XyPsu<MockSerial> = XyPsu::new(mock_serial, 0x01);

    // Read the raw register to test the transaction without scaling.
    let result = psu.read_modbus_single(XyRegister::VOut.address());
    assert_eq!(result, Ok(500));
}

#[test]
fn test_write_output_voltage() {
    let mut mock_serial = MockSerial::new();

    // Mock the echo response for setting the voltage setpoint.
    let write_response = [0x01, 0x06, 0x00, 0x00, 0x09, 0x60, 0x8F, 0xB2];
    mock_serial.set_read_data(&write_response).unwrap();

    let mut psu: XyPsu<MockSerial> = XyPsu::new(mock_serial, 0x01);

    // Raw value 2400 (0x0960) represents 24.0V in centivolts.
    let result = psu.write_modbus_single(XyRegister::VSet.address(), 2400);
    assert!(result.is_ok(), "Setting voltage should succeed");
}

#[test]
fn echo_mismatch_is_invalid_response() {
    let mut mock_serial = MockSerial::new();
    // The device echoes different bytes than were written.
    mock_serial
        .set_read_data(&[0x01, 0x06, 0x00, 0x10, 0x12, 0x35, 0x85, 0x78])
        .unwrap();
    let mut psu: XyPsu<MockSerial> = XyPsu::new(mock_serial, 0x01);
    assert_eq!(psu.write_modbus_single(0x10, 0x1234), Err(Error::InvalidResponse));
}

#[test]
fn truncated_echo_is_invalid_response() {
    let mut mock_serial = MockSerial::new();
    // Only seven of the eight echo bytes arrive before the bus goes idle.
    mock_serial.set_read_data(&[0x01, 0x06, 0x00, 0x10, 0x12, 0x34, 0x85]).unwrap();
    let mut psu: XyPsu<MockSerial> = XyPsu::new(mock_serial, 0x01);
    assert_eq!(psu.write_modbus_single(0x10, 0x1234), Err(Error::InvalidResponse));
}

#[test]
fn no_response_at_all_is_timeout() {
    let mock_serial = MockSerial::new();
    let mut psu: XyPsu<MockSerial> = XyPsu::new(mock_serial, 0x01);
    assert_eq!(psu.read_modbus_single(0x20), Err(Error::Timeout));
}

#[test]
fn transport_failure_is_serial_error() {
    let mut mock_serial = MockSerial::new();
    mock_serial.set_write_error(true);
    let mut psu: XyPsu<MockSerial> = XyPsu::new(mock_serial, 0x01);
    assert_eq!(psu.read_modbus_single(0x20), Err(Error::SerialError));
}

#[test]
fn small_accumulation_buffer_is_buffer_error() {
    let mut mock_serial = MockSerial::new();
    // A perfectly valid response, longer than the accumulation buffer.
    let response_data = [0x01, 0x03, 0x02, 0x56, 0x78, 0x87, 0xC6];
    mock_serial.set_read_data(&response_data).unwrap();

    // An accumulation buffer smaller than the response's byte length must
    // surface a buffer error, never a truncated decode.
    let mut psu: XyPsu<MockSerial> = XyPsu::with_capacity(mock_serial, 0x01, 4);
    assert_eq!(psu.read_modbus_single(0x20), Err(Error::BufferError));
}

#[test]
fn unknown_model_is_scaling_unavailable() {
    let mut mock_serial = MockSerial::new();
    // The model register reads an unrecognised code.
    mock_serial.set_read_data(&read_response(0x01, &[0x2222])).unwrap();
    let mut psu: XyPsu<MockSerial> = XyPsu::new(mock_serial, 0x01);
    assert_eq!(psu.read_output_voltage_mv(), Err(Error::ScalingNotAvailable));
}

#[test]
fn known_model_resolves_scaling_lazily() {
    let mut mock_serial = MockSerial::new();
    // First transaction reads the model register: XY7025.
    mock_serial.queue_read_chunk(&read_response(0x01, &[7025])).unwrap();
    // Second transaction reads the measured voltage: raw 1200.
    mock_serial.queue_read_chunk(&read_response(0x01, &[1200])).unwrap();
    let mut psu: XyPsu<MockSerial> = XyPsu::new(mock_serial, 0x01);
    // 1200 raw at 10 mV per count.
    assert_eq!(psu.read_output_voltage_mv(), Ok(12000));
}

#[test]
fn oversized_slave_address_is_int_too_big() {
    let mut mock_serial = MockSerial::new();
    mock_serial.set_read_data(&read_response(0x01, &[0x0100])).unwrap();
    let mut psu: XyPsu<MockSerial> = XyPsu::new(mock_serial, 0x01);
    assert_eq!(psu.get_slave_address(), Err(Error::IntTooBig));
}

#[test]
fn out_of_range_baud_selector_is_error() {
    let mut mock_serial = MockSerial::new();
    mock_serial.set_read_data(&read_response(0x01, &[42])).unwrap();
    let mut psu: XyPsu<MockSerial> = XyPsu::new(mock_serial, 0x01);
    assert_eq!(psu.get_baudrate(), Err(Error::Other));
}

#[test]
fn read_output_time_combines_the_three_registers() {
    let mut mock_serial = MockSerial::new();
    mock_serial.queue_read_chunk(&read_response(0x01, &[2])).unwrap(); // hours
    mock_serial.queue_read_chunk(&read_response(0x01, &[30])).unwrap(); // minutes
    mock_serial.queue_read_chunk(&read_response(0x01, &[15])).unwrap(); // seconds
    let mut psu: XyPsu<MockSerial> = XyPsu::new(mock_serial, 0x01);
    assert_eq!(psu.read_output_time(), Ok(2 * 3600 + 30 * 60 + 15));
}

#[test]
fn read_energy_combines_low_and_high_halves() {
    let mut mock_serial = MockSerial::new();
    mock_serial.queue_read_chunk(&read_response(0x01, &[0x0005])).unwrap(); // low
    mock_serial.queue_read_chunk(&read_response(0x01, &[0x0002])).unwrap(); // high
    let mut psu: XyPsu<MockSerial> = XyPsu::new(mock_serial, 0x01);
    assert_eq!(psu.read_energy_mwh(), Ok(0x0002_0005));
}

#[test]
fn set_then_get_protections_round_trips() {
    // The thresholds to install: every value an exact multiple of its
    // divisor, so the round trip through the registers is lossless.
    let scaling = ScalingFactors::new(10, 10, 1000, 10, 100);
    let config = ProtectionConfig {
        under_voltage_mv: 1000,
        over_voltage_mv: 30000,
        over_current_ma: 5000,
        over_power_mw: 100000,
        over_time_s: 2 * 3600 + 30 * 60,
        over_capacity_mah: 250,
        over_energy_mwh: 6_553_700, // splits into low half 1, high half 1
        over_temperature: Temperature::Celsius(80),
    };

    let mut mock = MockSerial::new();
    // set_protections: active group, voltage, current, output state, unit.
    mock.queue_read_chunk(&read_response(0x01, &[3])).unwrap(); // group M3
    mock.queue_read_chunk(&read_response(0x01, &[1200])).unwrap(); // VSet raw
    mock.queue_read_chunk(&read_response(0x01, &[500])).unwrap(); // ISet raw
    mock.queue_read_chunk(&read_response(0x01, &[1])).unwrap(); // output on
    mock.queue_read_chunk(&read_response(0x01, &[0])).unwrap(); // Celsius
    // The bulk-write response: the request header echoed with its CRC.
    let bulk_response = {
        let mut body = vec![0x01, 0x10, 0x00, 0x80, 0x00, 0x0F];
        let crc = codec::crc16(&body);
        body.push((crc & 0xFF) as u8);
        body.push((crc >> 8) as u8);
        body
    };
    mock.queue_read_chunk(&bulk_response).unwrap();
    // get_protections: active group, the thirteen protection registers,
    // unit. The register values are exactly the ones set_protections wrote.
    mock.queue_read_chunk(&read_response(0x01, &[3])).unwrap();
    mock.queue_read_chunk(&read_response(
        0x01,
        &[100, 3000, 500, 100, 2, 30, 25, 0, 1, 1, 80, 1, 80],
    ))
    .unwrap();
    mock.queue_read_chunk(&read_response(0x01, &[0])).unwrap();

    let mut psu: XyPsu<MockSerial> = XyPsu::new(mock, 0x01);
    psu.set_scaling_factors(scaling);

    psu.set_protections(config).unwrap();
    let read_back = psu.get_protections().unwrap();

    assert_eq!(read_back.under_voltage_mv, config.under_voltage_mv);
    assert_eq!(read_back.over_voltage_mv, config.over_voltage_mv);
    assert_eq!(read_back.over_current_ma, config.over_current_ma);
    assert_eq!(read_back.over_power_mw, config.over_power_mw);
    assert_eq!(read_back.over_time_s, config.over_time_s);
    assert_eq!(read_back.over_capacity_mah, config.over_capacity_mah);
    assert_eq!(read_back.over_energy_mwh, config.over_energy_mwh);
    assert_eq!(read_back.over_temperature, config.over_temperature);

    // The bulk write targeted group M3's block with the merged values.
    let mock = psu.into_inner();
    let written = mock.written_data();
    // Five read requests of 8 bytes precede the bulk write request.
    let bulk = &written[40..40 + 9 + 30 + 2];
    assert_eq!(&bulk[..7], &[0x01, 0x10, 0x00, 0x80, 0x00, 0x0F, 0x1E]);
    // The preserved setpoints lead the block payload.
    assert_eq!(&bulk[7..11], &[0x04, 0xB0, 0x01, 0xF4]); // raw 1200, raw 500
}

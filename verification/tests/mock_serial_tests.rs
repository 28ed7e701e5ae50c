//! Behaviour of the in-memory mock transport.

use xypsu::mock_serial::{MockSerial, MockSerialError};

#[test]
fn test_new_mock_serial() {
    let mut mock = MockSerial::new();
    assert_eq!(mock.written_data().len(), 0);
    // No simulated errors are set on a fresh mock.
    assert!(mock.flush().is_ok());
    // And no data is queued: reading blocks.
    assert!(matches!(mock.read(10), Err(MockSerialError::WouldBlock)));
}

#[test]
fn test_write_data() {
    let mut mock = MockSerial::new();
    let test_data = b"Hello, World!";

    let result = mock.write(test_data);
    assert!(result.is_ok());
    assert_eq!(result.unwrap(), test_data.len());
    assert_eq!(mock.written_data(), test_data);
}

#[test]
fn test_write_multiple_times() {
    let mut mock = MockSerial::new();
    let data1 = b"Hello, ";
    let data2 = b"World!";

    mock.write(data1).unwrap();
    mock.write(data2).unwrap();

    let expected = b"Hello, World!";
    assert_eq!(mock.written_data(), expected);
}

#[test]
fn test_write_buffer_overflow() {
    let mut mock = MockSerial::new();
    let large_data = vec![0u8; 300]; // Larger than the 256 byte capacity.

    let result = mock.write(&large_data);
    assert!(result.is_err());
    assert!(matches!(result.unwrap_err(), MockSerialError::BufferOverflow));
}

#[test]
fn test_flush() {
    let mut mock = MockSerial::new();
    let result = mock.flush();
    assert!(result.is_ok());
}

#[test]
fn test_read_data() {
    let mut mock = MockSerial::new();
    let test_data = b"Response data";
    mock.set_read_data(test_data).unwrap();

    let result = mock.read(20);

    assert!(result.is_ok());
    let bytes = result.unwrap();
    assert_eq!(bytes.len(), test_data.len());
    assert_eq!(&bytes, test_data);
}

#[test]
fn test_read_partial_data() {
    let mut mock = MockSerial::new();
    let test_data = b"Long response data";
    mock.set_read_data(test_data).unwrap();

    let result = mock.read(5);

    assert!(result.is_ok());
    let bytes = result.unwrap();
    assert_eq!(bytes.len(), 5);
    assert_eq!(&bytes, b"Long ");
}

#[test]
fn test_read_multiple_calls() {
    let mut mock = MockSerial::new();
    let test_data = b"Hello World";
    mock.set_read_data(test_data).unwrap();

    let result1 = mock.read(5);
    let result2 = mock.read(6);

    assert!(result1.is_ok());
    assert!(result2.is_ok());
    let bytes1 = result1.unwrap();
    let bytes2 = result2.unwrap();
    assert_eq!(bytes1.len(), 5);
    assert_eq!(bytes2.len(), 6);
    assert_eq!(&bytes1, b"Hello");
    assert_eq!(&bytes2, b" World");
}

#[test]
fn test_read_timeout_when_no_data() {
    let mut mock = MockSerial::new();

    let result = mock.read(10);
    assert!(result.is_err());
    assert!(matches!(result.unwrap_err(), MockSerialError::WouldBlock));
}

#[test]
fn test_read_timeout_after_data_exhausted() {
    let mut mock = MockSerial::new();
    let test_data = b"Hi";
    mock.set_read_data(test_data).unwrap();

    // First read should succeed.
    let result1 = mock.read(10);
    assert!(result1.is_ok());

    // Second read should return WouldBlock.
    let result2 = mock.read(10);
    assert!(result2.is_err());
    assert!(matches!(result2.unwrap_err(), MockSerialError::WouldBlock));
}

#[test]
fn test_write_error_simulation() {
    let mut mock = MockSerial::new();
    mock.set_write_error(true);

    let test_data = b"test";
    let result = mock.write(test_data);

    assert!(result.is_err());
    assert!(matches!(result.unwrap_err(), MockSerialError::SimulatedError));
    assert_eq!(mock.written_data().len(), 0); // Nothing should be written.
}

#[test]
fn test_flush_error_simulation() {
    let mut mock = MockSerial::new();
    mock.set_write_error(true);

    let result = mock.flush();
    assert!(result.is_err());
    assert!(matches!(result.unwrap_err(), MockSerialError::SimulatedError));
}

#[test]
fn test_read_error_simulation() {
    let mut mock = MockSerial::new();
    mock.set_read_data(b"test data").unwrap();
    mock.set_read_error(true);

    let result = mock.read(10);

    assert!(result.is_err());
    assert!(matches!(result.unwrap_err(), MockSerialError::SimulatedError));
}

#[test]
fn test_clear_written_data() {
    let mut mock = MockSerial::new();
    mock.write(b"test data").unwrap();
    assert!(!mock.written_data().is_empty());

    mock.clear_written_data();
    assert!(mock.written_data().is_empty());
}

#[test]
fn test_reset_read_position() {
    let mut mock = MockSerial::new();
    let test_data = b"Hello World";
    mock.set_read_data(test_data).unwrap();

    mock.read(5).unwrap(); // Advances the read position.

    mock.reset_read_position();

    let result = mock.read(5);
    assert!(result.is_ok());
    assert_eq!(&result.unwrap(), b"Hello");
}

#[test]
fn test_set_read_data_buffer_overflow() {
    let mut mock = MockSerial::new();
    let large_data = vec![0u8; 300]; // Larger than the 256 byte capacity.

    let result = mock.set_read_data(&large_data);
    assert!(result.is_err());
    assert!(matches!(result.unwrap_err(), MockSerialError::BufferOverflow));
}

#[test]
fn test_set_read_data_clears_previous() {
    let mut mock = MockSerial::new();
    mock.set_read_data(b"first").unwrap();
    mock.set_read_data(b"second").unwrap();

    let result = mock.read(10);

    assert!(result.is_ok());
    let bytes = result.unwrap();
    assert_eq!(bytes.len(), 6);
    assert_eq!(&bytes, b"second");
}

#[test]
fn test_error_flags_toggle() {
    let mut mock = MockSerial::new();

    // Test the write error flag.
    mock.set_write_error(true);
    assert!(mock.write(b"test").is_err());

    mock.set_write_error(false);
    assert!(mock.write(b"test").is_ok());

    // Test the read error flag.
    mock.set_read_data(b"data").unwrap();
    mock.set_read_error(true);

    assert!(mock.read(10).is_err());

    mock.set_read_error(false);
    mock.reset_read_position();
    assert!(mock.read(10).is_ok());
}

#[test]
fn test_queued_chunks_serve_one_per_boundary() {
    let mut mock = MockSerial::new();
    mock.queue_read_chunk(b"one").unwrap();
    mock.queue_read_chunk(b"two").unwrap();

    // A read never crosses a chunk boundary.
    assert_eq!(&mock.read(10).unwrap(), b"one");
    assert_eq!(&mock.read(10).unwrap(), b"two");
    assert!(matches!(mock.read(10), Err(MockSerialError::WouldBlock)));
}

use anauuno::error::Error;
use anauuno::message::Message;
use anauuno::stream::{take_front, UsbAapStream, Want, BULK_READ_SIZE};

#[test]
fn new_stream_is_empty() {
    let stream = UsbAapStream::new(0x81, 0x01);
    assert!(!stream.handshake_done);
    assert!(stream.raw_buffer_in.is_empty());
    assert!(stream.read_buffer.is_empty());
    assert!(stream.write_buffer.is_empty());
    assert_eq!(stream.endpoint_in, 0x81);
    assert_eq!(stream.endpoint_out, 0x01);
    assert_eq!(BULK_READ_SIZE, 131072);
}

#[test]
fn first_timeout_with_nothing_waiting_means_no_data_yet() {
    let mut stream = UsbAapStream::new(0x81, 0x01);
    assert!(stream.needs_fill(4));
    assert_eq!(stream.fill_in_buffer(4, true, Err(Error::IoTimeout)), Ok(false));
    assert!(stream.read_raw(4).is_empty());
}

#[test]
fn later_timeouts_keep_the_reader_waiting() {
    let mut stream = UsbAapStream::new(0x81, 0x01);
    assert_eq!(stream.fill_in_buffer(4, false, Err(Error::IoTimeout)), Ok(true));
    assert_eq!(stream.fill_in_buffer(4, true, Ok(vec![1, 2])), Ok(true));
    assert_eq!(stream.fill_in_buffer(4, false, Err(Error::IoTimeout)), Ok(true));
    assert_eq!(stream.fill_in_buffer(4, true, Err(Error::IoTimeout)), Ok(true));
    assert_eq!(stream.fill_in_buffer(4, false, Ok(vec![3, 4, 5])), Ok(false));
    assert!(!stream.needs_fill(5));
    assert!(stream.needs_fill(6));
    assert_eq!(stream.fill_in_buffer(5, true, Err(Error::IoTimeout)), Ok(false));
    assert_eq!(stream.raw_buffer_in, vec![1, 2, 3, 4, 5]);
}

#[test]
fn transport_failures_are_handed_on() {
    let mut stream = UsbAapStream::new(0x81, 0x01);
    stream.fill_in_buffer(4, true, Ok(vec![1])).unwrap();
    for error in [Error::IoDisconnected, Error::IoPipe, Error::IoOther] {
        assert_eq!(stream.fill_in_buffer(4, false, Err(error)), Err(error));
    }
    assert_eq!(stream.raw_buffer_in, vec![1]);
}

#[test]
fn read_raw_takes_from_the_front() {
    let mut stream = UsbAapStream::new(0x81, 0x01);
    stream.fill_in_buffer(1, true, Ok(vec![1, 2, 3, 4, 5])).unwrap();
    assert_eq!(stream.read_raw(2), vec![1, 2]);
    assert_eq!(stream.read_raw(0), Vec::<u8>::new());
    assert_eq!(stream.read_raw(10), vec![3, 4, 5]);
    assert_eq!(stream.read_raw(1), Vec::<u8>::new());
}

#[test]
fn take_front_splits_a_buffer() {
    let mut buffer = vec![1, 2, 3];
    assert_eq!(take_front(&mut buffer, 2), vec![1, 2]);
    assert_eq!(buffer, vec![3]);
    assert_eq!(take_front(&mut buffer, 2), vec![3]);
    assert!(buffer.is_empty());
}

#[test]
fn unencrypted_message_is_taken_off_the_raw_bytes() {
    let mut stream = UsbAapStream::new(0x81, 0x01);
    stream.fill_in_buffer(1, true, Ok(vec![0x00, 0x03, 0x00, 0x04, 0x00])).unwrap();
    assert_eq!(stream.read_unencrypted_message(), Ok(None));
    assert_eq!(stream.raw_buffer_in.len(), 5);
    stream.fill_in_buffer(1, false, Ok(vec![0x02, 0x00, 0x01, 0x00, 0x03])).unwrap();
    assert_eq!(
        stream.read_unencrypted_message(),
        Ok(Some(Message::new(0, false, 0x02, vec![0x00, 0x01])))
    );
    assert_eq!(stream.raw_buffer_in, vec![0x00, 0x03]);
}

#[test]
fn raw_bytes_that_are_no_clear_message_stay() {
    let mut stream = UsbAapStream::new(0x81, 0x01);
    stream.fill_in_buffer(1, true, Ok(vec![0x00, 0x0B, 0x00, 0x02, 0x00, 0x02])).unwrap();
    assert_eq!(stream.read_unencrypted_message(), Err(Error::ProtocolViolation));
    assert_eq!(stream.raw_buffer_in.len(), 6);
    let mut stream = UsbAapStream::new(0x81, 0x01);
    stream.fill_in_buffer(1, true, Ok(vec![0x00, 0x01, 0x00, 0x02, 0, 0, 0, 2, 0x00, 0x02])).unwrap();
    assert_eq!(stream.read_unencrypted_message(), Err(Error::FramingError));
    assert_eq!(stream.raw_buffer_in.len(), 10);
}

#[test]
fn tls_writes_leave_as_one_handshake_frame() {
    let mut stream = UsbAapStream::new(0x81, 0x01);
    assert_eq!(stream.write(&[0x16, 0x03]), 2);
    assert_eq!(stream.write(&[0x03, 0x00, 0x01]), 3);
    assert_eq!(stream.write(&[]), 0);
    assert_eq!(
        stream.flush(),
        Ok(Some(vec![0x00, 0x03, 0x00, 0x07, 0x00, 0x03, 0x16, 0x03, 0x03, 0x00, 0x01]))
    );
    assert!(stream.write_buffer.is_empty());
    assert_eq!(stream.flush(), Ok(Some(vec![0x00, 0x03, 0x00, 0x02, 0x00, 0x03])));
}

#[test]
fn flush_after_the_handshake_sends_nothing() {
    let mut stream = UsbAapStream::new(0x81, 0x01);
    stream.finish_handshake();
    assert!(stream.handshake_done);
    stream.write(&[1, 2, 3]);
    assert_eq!(stream.flush(), Ok(None));
    assert_eq!(stream.write_buffer, vec![1, 2, 3]);
    assert_eq!(stream.extract_write_buffer(), vec![1, 2, 3]);
    assert!(stream.write_buffer.is_empty());
    assert_eq!(stream.extract_write_buffer(), Vec::<u8>::new());
    stream.finish_handshake();
    assert!(stream.handshake_done);
}

#[test]
fn flush_of_more_than_a_frame_holds_is_a_framing_error() {
    let mut stream = UsbAapStream::new(0x81, 0x01);
    stream.write(&vec![0u8; 0xFFFF - 2]);
    assert_eq!(stream.flush().unwrap().unwrap().len(), 4 + 0xFFFF);
    stream.write(&vec![0u8; 0xFFFF - 1]);
    assert_eq!(stream.flush(), Err(Error::FramingError));
    assert_eq!(stream.write_buffer.len(), 0xFFFF - 1);
}

#[test]
fn tls_engine_reads_what_was_fed() {
    let mut stream = UsbAapStream::new(0x81, 0x01);
    assert_eq!(stream.read(5), Vec::<u8>::new());
    stream.feed(&[1, 2, 3]);
    stream.feed(&[4]);
    assert_eq!(stream.read(2), vec![1, 2]);
    assert_eq!(stream.read(5), vec![3, 4]);
    assert_eq!(stream.read(5), Vec::<u8>::new());
}

#[test]
fn handshake_record_goes_to_the_tls_engine() {
    let mut stream = UsbAapStream::new(0x81, 0x01);
    stream.feed(&[9]);
    stream.fill_in_buffer(1, true, Ok(vec![0x00, 0x03, 0x00, 0x05, 0x00, 0x03, 0x16])).unwrap();
    assert_eq!(stream.read_handshake_record(), Ok(false));
    assert_eq!(stream.read_buffer, vec![9]);
    stream.fill_in_buffer(1, false, Ok(vec![0x03, 0x03, 0xEE])).unwrap();
    assert_eq!(stream.read_handshake_record(), Ok(true));
    assert_eq!(stream.read_buffer, vec![9, 0x16, 0x03, 0x03]);
    assert_eq!(stream.raw_buffer_in, vec![0xEE]);
    assert_eq!(stream.read_handshake_record(), Ok(false));
}

#[test]
fn other_messages_in_place_of_a_handshake_record_are_violations() {
    for wire in [
        vec![0x00u8, 0x03, 0x00, 0x02, 0x00, 0x05],
        vec![0x01, 0x03, 0x00, 0x02, 0x00, 0x03],
        vec![0x00, 0x0B, 0x00, 0x02, 0x00, 0x03],
    ] {
        let mut stream = UsbAapStream::new(0x81, 0x01);
        stream.fill_in_buffer(1, true, Ok(wire.clone())).unwrap();
        assert_eq!(stream.read_handshake_record(), Err(Error::ProtocolViolation));
        assert_eq!(stream.raw_buffer_in, wire);
        assert!(stream.read_buffer.is_empty());
    }
    let mut stream = UsbAapStream::new(0x81, 0x01);
    stream.fill_in_buffer(1, true, Ok(vec![0x00, 0x02, 0x00, 0x02, 0x00, 0x03])).unwrap();
    assert_eq!(stream.read_handshake_record(), Err(Error::FramingError));
}

#[test]
fn tls_read_waits_for_what_the_phase_brings() {
    let mut stream = UsbAapStream::new(0x81, 0x01);
    assert_eq!(stream.wants(16), Want::HandshakeRecord);
    assert_eq!(stream.wants(0), Want::Nothing);
    stream.feed(&[1]);
    assert_eq!(stream.wants(16), Want::Nothing);
    stream.read(1);
    stream.finish_handshake();
    assert_eq!(stream.wants(16), Want::Ciphertext);
    assert_eq!(stream.wants(0), Want::Nothing);
    stream.feed(&[2, 3]);
    assert_eq!(stream.wants(1), Want::Nothing);
}

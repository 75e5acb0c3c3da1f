use bytes::{BufMut, BytesMut};
use dsmr5_exporter::decoder::{telegram_outcome, DecodeError, Dsmr5Codec};
use dsmr5_exporter::frame::{find_byte, END_MARKER, MAX_FRAME_LEN, START_MARKER, TRAILER_LEN};
use dsmr5_exporter::telegram::is_parser_safe;

/// CRC-16/ARC, the checksum that closes a telegram.
fn crc16(data: &[u8]) -> u16 {
    let mut crc: u16 = 0;
    for byte in data {
        crc ^= u16::from(*byte);
        for _ in 0..8 {
            if crc & 1 == 1 {
                crc = (crc >> 1) ^ 0xA001;
            } else {
                crc >>= 1;
            }
        }
    }
    crc
}

/// A telegram with these object lines and a checksum that fits.
fn telegram(lines: &[&str]) -> Vec<u8> {
    let mut bytes = Vec::new();
    bytes.extend_from_slice(b"/ISK5\\2M550E-1012\r\n\r\n");
    for line in lines {
        bytes.extend_from_slice(line.as_bytes());
        bytes.extend_from_slice(b"\r\n");
    }
    bytes.push(b'!');
    let checksum = format!("{:04X}", crc16(&bytes));
    bytes.extend_from_slice(checksum.as_bytes());
    bytes.extend_from_slice(b"\r\n");
    bytes
}

fn household() -> Vec<u8> {
    telegram(&[
        "1-3:0.2.8(50)",
        "0-0:1.0.0(190320181403W)",
        "1-0:1.8.1(000576.239*kWh)",
        "1-0:1.8.2(000465.162*kWh)",
        "1-0:2.8.1(000000.000*kWh)",
        "1-0:2.8.2(000012.500*kWh)",
        "0-0:96.14.0(0002)",
        "1-0:1.7.0(01.500*kW)",
        "1-0:2.7.0(00.000*kW)",
        "0-0:96.7.21(00009)",
        "0-0:96.7.9(00008)",
        "1-0:32.32.0(00002)",
        "1-0:32.36.0(00001)",
        "1-0:32.7.0(230.1*V)",
        "1-0:31.7.0(007*A)",
        "1-0:21.7.0(01.500*kW)",
        "1-0:22.7.0(00.000*kW)",
        "0-1:24.1.0(003)",
        "0-1:24.2.1(190320181000W)(00010.500*m3)",
    ])
}

fn buffer_of(bytes: &[u8]) -> BytesMut {
    BytesMut::from(bytes)
}

#[test]
fn markers_are_slash_and_bang() {
    assert_eq!(START_MARKER, b'/');
    assert_eq!(END_MARKER, b'!');
    assert_eq!(TRAILER_LEN, 7);
    assert_eq!(MAX_FRAME_LEN, 2048);
}

#[test]
fn find_byte_gives_the_first_place() {
    assert_eq!(find_byte(b"ab/cd/", b'/'), Some(2));
    assert_eq!(find_byte(b"/", b'/'), Some(0));
    assert_eq!(find_byte(b"abc", b'/'), None);
    assert_eq!(find_byte(b"", b'/'), None);
}

#[test]
fn empty_buffer_needs_more() {
    let mut codec = Dsmr5Codec::new();
    let mut buffer = BytesMut::new();
    assert!(matches!(codec.decode(&mut buffer), Ok(None)));
    assert!(buffer.is_empty());
}

#[test]
fn bytes_without_a_start_marker_stay_buffered() {
    let mut codec = Dsmr5Codec::new();
    let mut buffer = buffer_of(b"1-0:1.7.0(01.500*kW)\r\n!4E5F\r\n");
    assert!(matches!(codec.decode(&mut buffer), Ok(None)));
    assert_eq!(&buffer[..], b"1-0:1.7.0(01.500*kW)\r\n!4E5F\r\n");
}

#[test]
fn bytes_before_the_start_marker_are_dropped() {
    let mut codec = Dsmr5Codec::new();
    let mut buffer = buffer_of(b"kW)\r\n!12AB\r\n/ISK5\\2M550E-1012\r\n\r\n1-3:0.2.8(50)");
    assert!(matches!(codec.decode(&mut buffer), Ok(None)));
    assert_eq!(&buffer[..], b"/ISK5\\2M550E-1012\r\n\r\n1-3:0.2.8(50)");
}

#[test]
fn frame_without_its_whole_trailer_needs_more() {
    let whole = household();
    let mut codec = Dsmr5Codec::new();
    for missing in 1..TRAILER_LEN {
        let mut buffer = buffer_of(&whole[..whole.len() - missing]);
        assert!(matches!(codec.decode(&mut buffer), Ok(None)));
        assert_eq!(&buffer[..], &whole[..whole.len() - missing]);
    }
}

#[test]
fn a_whole_telegram_is_decoded() {
    let mut codec = Dsmr5Codec::new();
    let mut buffer = buffer_of(&household());
    let state = match codec.decode(&mut buffer) {
        Ok(Some(state)) => state,
        other => panic!("no telegram: {:?}", other),
    };
    assert!(buffer.is_empty());
    assert_eq!(state.meterreadings[0].to, Some(576.239));
    assert_eq!(state.meterreadings[1].to, Some(465.162));
    assert_eq!(state.meterreadings[1].by, Some(12.5));
    assert_eq!(state.tariff_indicator, Some([0, 2]));
    assert_eq!(state.power_delivered, Some(1.5));
    assert_eq!(state.power_failures, Some(9));
    assert_eq!(state.long_power_failures, Some(8));
    assert_eq!(state.lines[0].voltage_sags, Some(2));
    assert_eq!(state.lines[0].voltage, Some(230.1));
    assert_eq!(state.lines[0].current, Some(7));
    assert_eq!(state.slaves[0].device_type, Some(3));
    assert_eq!(state.slaves[0].meter_reading.as_ref().map(|r| r.1), Some(10.5));
}

#[test]
fn what_follows_a_frame_stays_buffered() {
    let mut stream = b"noise".to_vec();
    stream.extend_from_slice(&household());
    stream.extend_from_slice(b"/ISK5");
    let mut codec = Dsmr5Codec::new();
    let mut buffer = buffer_of(&stream);
    assert!(matches!(codec.decode(&mut buffer), Ok(Some(_))));
    assert_eq!(&buffer[..], b"/ISK5");
    assert!(matches!(codec.decode(&mut buffer), Ok(None)));
    assert_eq!(&buffer[..], b"/ISK5");
}

#[test]
fn frames_come_out_in_stream_order() {
    let first = telegram(&["1-0:1.7.0(01.500*kW)"]);
    let second = telegram(&["1-0:1.7.0(02.250*kW)"]);
    let mut stream = b"\r\n".to_vec();
    stream.extend_from_slice(&first);
    stream.extend_from_slice(b"line noise\0\0");
    stream.extend_from_slice(&second);
    let mut codec = Dsmr5Codec::new();
    let mut buffer = buffer_of(&stream);
    let one = codec.decode(&mut buffer).unwrap().unwrap();
    let two = codec.decode(&mut buffer).unwrap().unwrap();
    assert_eq!(one.power_delivered, Some(1.5));
    assert_eq!(two.power_delivered, Some(2.25));
    assert!(matches!(codec.decode(&mut buffer), Ok(None)));
    assert!(buffer.is_empty());
}

/// Feeds `stream` in chunks of `size` bytes and collects the power of each
/// telegram that comes out.
fn powers_in_chunks(stream: &[u8], size: usize) -> Vec<Option<f64>> {
    let mut codec = Dsmr5Codec::new();
    let mut buffer = BytesMut::new();
    let mut powers = Vec::new();
    for chunk in stream.chunks(size) {
        buffer.put_slice(chunk);
        while let Some(state) = codec.decode(&mut buffer).unwrap() {
            powers.push(state.power_delivered);
        }
    }
    powers
}

#[test]
fn chunk_sizes_do_not_matter() {
    let mut stream = b"tail of a telegram\r\n!0000\r\n".to_vec();
    stream.extend_from_slice(&telegram(&["1-0:1.7.0(00.100*kW)"]));
    stream.extend_from_slice(b"\r\n\r\n");
    stream.extend_from_slice(&telegram(&["1-0:1.7.0(00.200*kW)"]));
    stream.extend_from_slice(&telegram(&["1-0:1.7.0(00.300*kW)"]));
    stream.extend_from_slice(b"/ISK5\\2M5");
    let expected = vec![Some(0.1), Some(0.2), Some(0.3)];
    for size in [1, 2, 3, 5, 7, 16, 33, 64, 100, 1000] {
        assert_eq!(powers_in_chunks(&stream, size), expected, "chunks of {}", size);
    }
}

#[test]
fn buffer_over_the_limit_fails() {
    let mut codec = Dsmr5Codec::new();
    let mut bytes = vec![b'/'];
    bytes.resize(MAX_FRAME_LEN + 1, b'x');
    let mut buffer = buffer_of(&bytes);
    assert!(matches!(codec.decode(&mut buffer), Err(DecodeError::FrameTooLong)));
    assert_eq!(&buffer[..], &bytes[..]);
    assert!(matches!(codec.decode(&mut buffer), Err(DecodeError::FrameTooLong)));
}

#[test]
fn buffer_over_the_limit_fails_even_with_a_frame_in_it() {
    let mut codec = Dsmr5Codec::new();
    let mut bytes = household();
    bytes.resize(MAX_FRAME_LEN + 1, b' ');
    let mut buffer = buffer_of(&bytes);
    assert!(matches!(codec.decode(&mut buffer), Err(DecodeError::FrameTooLong)));
    assert_eq!(buffer.len(), MAX_FRAME_LEN + 1);
}

#[test]
fn buffer_at_the_limit_is_looked_at() {
    let mut codec = Dsmr5Codec::new();
    let mut bytes = vec![b'/'];
    bytes.resize(MAX_FRAME_LEN, b'x');
    let mut buffer = buffer_of(&bytes);
    assert!(matches!(codec.decode(&mut buffer), Ok(None)));
    assert_eq!(buffer.len(), MAX_FRAME_LEN);
}

#[test]
fn frame_of_the_full_width_is_cut_out() {
    let mut codec = Dsmr5Codec::new();
    let mut bytes = vec![b'/'];
    bytes.resize(MAX_FRAME_LEN - TRAILER_LEN, b'x');
    bytes.extend_from_slice(b"!0000\r\n");
    assert_eq!(bytes.len(), MAX_FRAME_LEN);
    let mut buffer = buffer_of(&bytes);
    assert!(matches!(codec.decode(&mut buffer), Err(DecodeError::MalformedTelegram)));
    assert!(buffer.is_empty());
}

#[test]
fn wrong_checksum_is_malformed_and_the_stream_goes_on() {
    let mut broken = household();
    let at = broken.len() - 3;
    broken[at] = if broken[at] == b'0' { b'1' } else { b'0' };
    let mut stream = broken;
    stream.extend_from_slice(&household());
    let mut codec = Dsmr5Codec::new();
    let mut buffer = buffer_of(&stream);
    assert!(matches!(codec.decode(&mut buffer), Err(DecodeError::MalformedTelegram)));
    assert_eq!(&buffer[..], &household()[..]);
    assert!(matches!(codec.decode(&mut buffer), Ok(Some(_))));
}

#[test]
fn unknown_object_is_malformed() {
    let mut codec = Dsmr5Codec::new();
    let mut buffer = buffer_of(&telegram(&["9-9:9.9.9(1)"]));
    assert!(matches!(codec.decode(&mut buffer), Err(DecodeError::MalformedTelegram)));
    assert!(buffer.is_empty());
}

#[test]
fn frame_with_a_wide_character_is_not_parsed() {
    let bytes = telegram(&["0-0:96.1.1(\u{e9}\u{e9})", "1-0:1.7.0(01.500*kW)"]);
    assert!(!is_parser_safe(&bytes));
    let mut codec = Dsmr5Codec::new();
    let mut buffer = buffer_of(&bytes);
    assert!(matches!(codec.decode(&mut buffer), Err(DecodeError::MalformedTelegram)));
    assert!(buffer.is_empty());
}

#[test]
fn reading_with_a_far_decimal_point_is_not_parsed() {
    let bytes = telegram(&["0-1:24.1.0(003)", "0-1:24.2.1(190320181000W)(1234567890.5*m3)"]);
    assert!(!is_parser_safe(&bytes));
    let mut codec = Dsmr5Codec::new();
    let mut buffer = buffer_of(&bytes);
    assert!(matches!(codec.decode(&mut buffer), Err(DecodeError::MalformedTelegram)));
    assert!(buffer.is_empty());
}

#[test]
fn reading_with_its_decimal_point_in_reach_is_parsed() {
    for value in ["00010.500", "0000010.5", "12345678."] {
        let line = format!("0-1:24.2.1(190320181000W)({}*m3)", value);
        let bytes = telegram(&["0-1:24.1.0(003)", &line]);
        assert!(is_parser_safe(&bytes), "{}", value);
    }
    let mut codec = Dsmr5Codec::new();
    let mut buffer =
        buffer_of(&telegram(&["0-1:24.1.0(003)", "0-1:24.2.1(190320181000W)(0000010.5*m3)"]));
    let state = codec.decode(&mut buffer).unwrap().unwrap();
    assert_eq!(state.slaves[0].meter_reading.as_ref().map(|r| r.1), Some(10.5));
}

#[test]
fn parser_guard_on_plain_bytes() {
    assert!(is_parser_safe(b""));
    assert!(is_parser_safe(b"/ISK5\r\n\r\n1-0:99.97.0(6)(0-0:96.7.19)(190201235231W)\r\n!"));
    assert!(is_parser_safe(b"24.2.1("));
    assert!(is_parser_safe(b"24.2.1()(no point at all)"));
    assert!(is_parser_safe(b"24.2.1()(12345678."));
    assert!(!is_parser_safe(b"24.2.1()(123456789."));
    assert!(!is_parser_safe(b"24.2.1(\r\n1-0:1.8.1(0000000576.239*kWh)"));
    assert!(is_parser_safe(b"1-0:1.8.1(0000000576.239*kWh)"));
    assert!(!is_parser_safe(&[0x80]));
    assert!(!is_parser_safe(&[b'/', 0xff, b'!']));
    assert!(is_parser_safe(&[0x7f, 0x00]));
}

#[test]
fn parser_outcome_becomes_the_decoder_outcome() {
    assert!(matches!(
        telegram_outcome(Err(dsmr5::Error::InvalidChecksum)),
        Err(DecodeError::MalformedTelegram)
    ));
    assert!(matches!(
        telegram_outcome(Err(dsmr5::Error::InvalidFormat)),
        Err(DecodeError::MalformedTelegram)
    ));
    assert!(matches!(
        telegram_outcome(Err(dsmr5::Error::UnknownObis)),
        Err(DecodeError::MalformedTelegram)
    ));
    let mut state = dsmr5::state::State::default();
    state.power_failures = Some(4);
    match telegram_outcome(Ok(state)) {
        Ok(Some(state)) => assert_eq!(state.power_failures, Some(4)),
        other => panic!("state lost: {:?}", other),
    }
}

#[test]
fn decoding_reserves_room_for_a_whole_frame() {
    let mut codec = Dsmr5Codec::new();
    let mut buffer = BytesMut::new();
    assert!(matches!(codec.decode(&mut buffer), Ok(None)));
    assert!(buffer.capacity() >= MAX_FRAME_LEN);
}

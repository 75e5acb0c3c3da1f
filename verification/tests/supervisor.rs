use bytes::BytesMut;
use dsmr5_exporter::backoff::BackoffPolicy;
use dsmr5_exporter::decoder::{DecodeError, Dsmr5Codec};
use dsmr5_exporter::supervisor::{read_event, Action, Event, Phase, Supervisor};

fn crc16(data: &[u8]) -> u16 {
    let mut crc: u16 = 0;
    for byte in data {
        crc ^= u16::from(*byte);
        for _ in 0..8 {
            if crc & 1 == 1 {
                crc = (crc >> 1) ^ 0xA001;
            } else {
                crc >>= 1;
            }
        }
    }
    crc
}

fn telegram(line: &str) -> Vec<u8> {
    let mut bytes = Vec::new();
    bytes.extend_from_slice(b"/KFM5KAIFA-METER\r\n\r\n");
    bytes.extend_from_slice(line.as_bytes());
    bytes.extend_from_slice(b"\r\n!");
    let checksum = format!("{:04X}", crc16(&bytes));
    bytes.extend_from_slice(checksum.as_bytes());
    bytes.extend_from_slice(b"\r\n");
    bytes
}

fn started() -> Supervisor {
    let mut supervisor = Supervisor::new(BackoffPolicy::standard());
    assert_eq!(supervisor.step(Event::Started), Action::Open { after: 0 });
    supervisor
}

fn reading() -> Supervisor {
    let mut supervisor = started();
    assert_eq!(supervisor.step(Event::Opened), Action::Read);
    supervisor
}

#[test]
fn standard_policy_grows_by_half_up_to_five_seconds() {
    let policy = BackoffPolicy::standard();
    assert_eq!(policy.first_interval(), 500);
    assert_eq!(policy.longest_interval(), 5000);
    let mut interval = policy.first_interval();
    let mut intervals = vec![interval];
    for _ in 0..8 {
        interval = policy.next_interval(interval);
        intervals.push(interval);
    }
    assert_eq!(intervals, vec![500, 750, 1125, 1687, 2530, 3795, 5000, 5000, 5000]);
}

#[test]
fn policy_parameters_are_checked() {
    assert!(BackoffPolicy::new(500, 3, 2, 5000).is_some());
    assert_eq!(BackoffPolicy::new(500, 3, 2, 5000), Some(BackoffPolicy::standard()));
    assert!(BackoffPolicy::new(0, 1, 1, 0).is_some());
    assert!(BackoffPolicy::new(5000, 2, 1, 5000).is_some());
    assert!(BackoffPolicy::new(500, 3, 0, 5000).is_none());
    assert!(BackoffPolicy::new(500, 1, 2, 5000).is_none());
    assert!(BackoffPolicy::new(5001, 3, 2, 5000).is_none());
}

#[test]
fn intervals_do_not_overflow() {
    let policy = BackoffPolicy::new(1, u64::MAX, 1, u64::MAX).unwrap();
    assert_eq!(policy.next_interval(1), u64::MAX);
    assert_eq!(policy.next_interval(u64::MAX), u64::MAX);
    let steady = BackoffPolicy::new(7, 1, 1, 100).unwrap();
    assert_eq!(steady.next_interval(7), 7);
    let doubling = BackoffPolicy::new(1, 2, 1, 10).unwrap();
    assert_eq!(doubling.next_interval(4), 8);
    assert_eq!(doubling.next_interval(5), 10);
    assert_eq!(doubling.next_interval(8), 10);
}

#[test]
fn three_failed_opens_then_success() {
    let policy = BackoffPolicy::standard();
    let mut supervisor = Supervisor::new(policy);
    assert_eq!(supervisor.current_phase(), Phase::Idle);
    assert_eq!(supervisor.step(Event::Started), Action::Open { after: 0 });
    let mut waits = Vec::new();
    for _ in 0..3 {
        match supervisor.step(Event::OpenFailed) {
            Action::Open { after } => waits.push(after),
            other => panic!("no retry: {:?}", other),
        }
        assert_eq!(supervisor.current_phase(), Phase::Connecting);
    }
    assert_eq!(waits, vec![500, 750, 1125]);
    assert!(waits.windows(2).all(|pair| pair[0] <= pair[1]));
    assert!(waits.iter().all(|wait| *wait <= policy.longest_interval()));
    assert_eq!(supervisor.step(Event::Opened), Action::Read);
    assert_eq!(supervisor.current_phase(), Phase::Reading);

    let mut codec = Dsmr5Codec::new();
    let mut buffer = BytesMut::from(&telegram("1-0:1.7.0(01.500*kW)")[..]);
    let outcome = codec.decode(&mut buffer);
    let event = read_event(&outcome);
    assert_eq!(event, Some(Event::Decoded));
    assert_eq!(supervisor.step(Event::Decoded), Action::Apply);
    assert_eq!(outcome.unwrap().unwrap().power_delivered, Some(1.5));
    assert_eq!(read_event(&codec.decode(&mut buffer)), None);
    assert_eq!(supervisor.current_phase(), Phase::Reading);
}

#[test]
fn waits_reach_the_cap_and_stay() {
    let mut supervisor = started();
    let mut waits = Vec::new();
    for _ in 0..10 {
        match supervisor.step(Event::OpenFailed) {
            Action::Open { after } => waits.push(after),
            other => panic!("no retry: {:?}", other),
        }
    }
    assert_eq!(waits, vec![500, 750, 1125, 1687, 2530, 3795, 5000, 5000, 5000, 5000]);
}

#[test]
fn waits_are_not_reset_by_a_connection() {
    let mut supervisor = started();
    assert_eq!(supervisor.step(Event::OpenFailed), Action::Open { after: 500 });
    assert_eq!(supervisor.step(Event::Opened), Action::Read);
    assert_eq!(supervisor.step(Event::Decoded), Action::Apply);
    assert_eq!(supervisor.step(Event::StreamEnded), Action::Open { after: 750 });
    assert_eq!(supervisor.current_phase(), Phase::Connecting);
    assert_eq!(supervisor.step(Event::Opened), Action::Read);
    assert_eq!(supervisor.step(Event::FrameTooLong), Action::Open { after: 1125 });
}

#[test]
fn a_malformed_telegram_is_skipped() {
    let mut supervisor = reading();
    assert_eq!(supervisor.step(Event::Malformed), Action::Skip);
    assert_eq!(supervisor.current_phase(), Phase::Reading);
    assert_eq!(supervisor.step(Event::Decoded), Action::Apply);
    assert_eq!(supervisor.current_phase(), Phase::Reading);
}

#[test]
fn a_frame_past_the_limit_reconnects() {
    let mut supervisor = reading();
    assert_eq!(supervisor.step(Event::FrameTooLong), Action::Open { after: 500 });
    assert_eq!(supervisor.current_phase(), Phase::Connecting);
}

#[test]
fn the_end_of_the_stream_reconnects() {
    let mut supervisor = reading();
    assert_eq!(supervisor.step(Event::StreamEnded), Action::Open { after: 500 });
    assert_eq!(supervisor.current_phase(), Phase::Connecting);
}

#[test]
fn cancellation_stops_in_every_phase() {
    let mut idle = Supervisor::new(BackoffPolicy::standard());
    assert_eq!(idle.step(Event::Cancelled), Action::Stop);
    assert_eq!(idle.current_phase(), Phase::Stopped);
    let mut connecting = started();
    assert_eq!(connecting.step(Event::Cancelled), Action::Stop);
    assert_eq!(connecting.current_phase(), Phase::Stopped);
    let mut supervisor = reading();
    assert_eq!(supervisor.step(Event::Cancelled), Action::Stop);
    assert_eq!(supervisor.current_phase(), Phase::Stopped);
    for event in [
        Event::Started,
        Event::OpenFailed,
        Event::Opened,
        Event::Decoded,
        Event::Malformed,
        Event::FrameTooLong,
        Event::StreamEnded,
        Event::Cancelled,
    ] {
        assert_eq!(supervisor.step(event), Action::Stop);
        assert_eq!(supervisor.current_phase(), Phase::Stopped);
    }
}

#[test]
fn an_event_out_of_place_is_ignored() {
    let mut idle = Supervisor::new(BackoffPolicy::standard());
    for event in [Event::OpenFailed, Event::Opened, Event::Decoded, Event::StreamEnded] {
        assert_eq!(idle.step(event), Action::Ignore);
        assert_eq!(idle.current_phase(), Phase::Idle);
    }
    let mut connecting = started();
    for event in [Event::Started, Event::Decoded, Event::Malformed, Event::StreamEnded] {
        assert_eq!(connecting.step(event), Action::Ignore);
        assert_eq!(connecting.current_phase(), Phase::Connecting);
    }
    assert_eq!(connecting.step(Event::OpenFailed), Action::Open { after: 500 });
    let mut supervisor = reading();
    for event in [Event::Started, Event::OpenFailed, Event::Opened] {
        assert_eq!(supervisor.step(event), Action::Ignore);
        assert_eq!(supervisor.current_phase(), Phase::Reading);
    }
    assert_eq!(supervisor.step(Event::StreamEnded), Action::Open { after: 500 });
}

#[test]
fn decoder_outcomes_as_events() {
    assert_eq!(read_event(&Ok(None)), None);
    assert_eq!(read_event(&Ok(Some(dsmr5::state::State::default()))), Some(Event::Decoded));
    assert_eq!(read_event(&Err(DecodeError::MalformedTelegram)), Some(Event::Malformed));
    assert_eq!(read_event(&Err(DecodeError::FrameTooLong)), Some(Event::FrameTooLong));
}

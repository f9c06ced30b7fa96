use sensor_ingest::measurement::DecodeError;
use sensor_ingest::session::Session;
use sensor_ingest::session::SessionError;
use sensor_ingest::session::SessionState;
use sensor_ingest::session::MAX_MEASUREMENT_COUNT;
use sensor_ingest::LocalTimestamp;

fn pack_record(
    year: u64,
    month0: u64,
    day0: u64,
    hour: u64,
    minute: u64,
    second: u64,
    temp: u64,
    humidity: u64,
) -> u64 {
    second
        | (minute << 6)
        | (hour << 12)
        | (day0 << 17)
        | (month0 << 22)
        | (year << 26)
        | (temp << 42)
        | (humidity << 51)
}

fn session_awaiting_count() -> Session {
    let mut s = Session::new();
    let now = LocalTimestamp { year: 2024, month: 3, day: 2, hour: 13, minute: 45, second: 30 };
    let _ = s.clock_packet(&now);
    s.clock_written();
    s
}

#[test]
fn session_walks_its_states() {
    let mut s = Session::new();
    assert_eq!(s.state, SessionState::Connected);
    let now = LocalTimestamp { year: 2024, month: 3, day: 2, hour: 13, minute: 45, second: 30 };
    let packet = s.clock_packet(&now);
    assert_eq!(packet, [94, 219, 28, 4, 253, 0]);
    assert_eq!(s.state, SessionState::SentClock);
    s.clock_written();
    assert_eq!(s.state, SessionState::AwaitingCount);
    assert_eq!(s.accept_count(17), Ok(()));
    assert_eq!(s.state, SessionState::ReceivingRecords);
    s.close();
    assert_eq!(s.state, SessionState::Closed);
    assert!(s.into_measurements().is_empty());
}

#[test]
fn count_one_above_the_maximum_aborts() {
    let mut s = session_awaiting_count();
    assert_eq!(MAX_MEASUREMENT_COUNT, 262144);
    assert_eq!(s.accept_count(262145), Err(SessionError::CountExceedsMaximum));
    assert_eq!(s.state, SessionState::Closed);
}

#[test]
fn count_at_the_maximum_proceeds() {
    let mut s = session_awaiting_count();
    assert_eq!(s.accept_count(262144), Ok(()));
    assert_eq!(s.state, SessionState::ReceivingRecords);
}

#[test]
fn eof_terminates_the_loop_not_the_count() {
    // The device advertises no records at all, then sends three anyway:
    // all three are decoded and kept, in arrival order, because only the
    // end of the stream ends the loop.
    let mut s = session_awaiting_count();
    assert_eq!(s.accept_count(0), Ok(()));
    let words = [
        pack_record(2023, 11, 24, 23, 59, 58, 123, 456),
        pack_record(2024, 0, 0, 0, 0, 0, 1, 2),
        pack_record(2024, 5, 14, 6, 30, 15, 250, 999),
    ];
    for w in words {
        assert_eq!(s.accept_record(w), Ok(()));
        assert_eq!(s.state, SessionState::ReceivingRecords);
    }
    s.close();
    let measurements = s.into_measurements();
    assert_eq!(measurements.len(), 3);
    assert_eq!(
        measurements[0].time,
        LocalTimestamp { year: 2023, month: 12, day: 25, hour: 23, minute: 59, second: 58 }
    );
    assert_eq!(measurements[0].temp, 123);
    assert_eq!(measurements[0].humidity, 456);
    assert_eq!(
        measurements[1].time,
        LocalTimestamp { year: 2024, month: 1, day: 1, hour: 0, minute: 0, second: 0 }
    );
    assert_eq!(
        measurements[2].time,
        LocalTimestamp { year: 2024, month: 6, day: 15, hour: 6, minute: 30, second: 15 }
    );
    assert_eq!(measurements[2].temp, 250);
    assert_eq!(measurements[2].humidity, 999);
}

#[test]
fn bad_record_closes_the_session() {
    let mut s = session_awaiting_count();
    assert_eq!(s.accept_count(5), Ok(()));
    let feb_30 = pack_record(2024, 1, 29, 12, 0, 0, 0, 0);
    assert_eq!(
        s.accept_record(feb_30),
        Err(SessionError::BadRecord(DecodeError::InvalidDate))
    );
    assert_eq!(s.state, SessionState::Closed);
    assert!(s.into_measurements().is_empty());
}

#[test]
fn bad_time_record_closes_the_session() {
    let mut s = session_awaiting_count();
    assert_eq!(s.accept_count(5), Ok(()));
    let hour_24 = pack_record(2024, 5, 14, 24, 0, 0, 0, 0);
    assert_eq!(
        s.accept_record(hour_24),
        Err(SessionError::BadRecord(DecodeError::InvalidTime))
    );
    assert_eq!(s.state, SessionState::Closed);
}

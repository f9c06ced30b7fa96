use sensor_ingest::calendar::valid_date;
use sensor_ingest::calendar::valid_time;
use sensor_ingest::calendar::weekday_from_sunday;
use sensor_ingest::clock::encode_now;
use sensor_ingest::measurement::decode;
use sensor_ingest::measurement::decode_with_resolution;
use sensor_ingest::measurement::DecodeError;
use sensor_ingest::measurement::LocalResolution;
use sensor_ingest::measurement::Measurement;
use sensor_ingest::LocalTimestamp;

fn pack_record(
    year: u64,
    month0: u64,
    day0: u64,
    hour: u64,
    minute: u64,
    second: u64,
    temp: u64,
    humidity: u64,
) -> u64 {
    second
        | (minute << 6)
        | (hour << 12)
        | (day0 << 17)
        | (month0 << 22)
        | (year << 26)
        | (temp << 42)
        | (humidity << 51)
}

#[test]
fn weekday_known_dates() {
    assert_eq!(weekday_from_sunday(2000, 1, 1), 6); // Saturday
    assert_eq!(weekday_from_sunday(2024, 3, 2), 6); // Saturday
    assert_eq!(weekday_from_sunday(1970, 1, 1), 4); // Thursday
    assert_eq!(weekday_from_sunday(2023, 12, 25), 1); // Monday
    assert_eq!(weekday_from_sunday(1999, 12, 31), 5); // Friday
}

#[test]
fn calendar_validity() {
    assert!(valid_date(2024, 2, 29)); // leap year
    assert!(!valid_date(2023, 2, 29));
    assert!(!valid_date(1900, 2, 29)); // century, not a leap year
    assert!(valid_date(2000, 2, 29)); // multiple of 400, a leap year
    assert!(!valid_date(2023, 2, 30));
    assert!(!valid_date(2023, 0, 1));
    assert!(!valid_date(2023, 13, 1));
    assert!(!valid_date(2023, 4, 31));
    assert!(!valid_date(2023, 1, 0));
    assert!(valid_time(23, 59, 59));
    assert!(!valid_time(24, 0, 0));
    assert!(!valid_time(0, 60, 0));
    assert!(!valid_time(0, 0, 60));
}

#[test]
fn clock_golden_vector() {
    let ts = LocalTimestamp { year: 2024, month: 3, day: 2, hour: 13, minute: 45, second: 30 };
    assert_eq!(encode_now(&ts), [94, 219, 28, 4, 253, 0]);
}

#[test]
fn clock_golden_vector_end_of_century() {
    let ts = LocalTimestamp { year: 1999, month: 12, day: 31, hour: 23, minute: 59, second: 59 };
    assert_eq!(encode_now(&ts), [251, 126, 235, 247, 249, 0]);
}

#[test]
fn clock_year_is_truncated_to_its_bit_width() {
    // 4096 = 2 * 2048 carries nothing into the 11 year bits the format
    // allots, and 4096-01-01 00:00:00 falls on a Sunday, so every field
    // packs to zero.
    let ts = LocalTimestamp { year: 4096, month: 1, day: 1, hour: 0, minute: 0, second: 0 };
    assert_eq!(encode_now(&ts), [0, 0, 0, 0, 0, 0]);
}

#[test]
fn decode_crafted_word() {
    let w = pack_record(2023, 11, 24, 23, 59, 58, 123, 456);
    let expected = Measurement {
        time: LocalTimestamp { year: 2023, month: 12, day: 25, hour: 23, minute: 59, second: 58 },
        temp: 123,
        humidity: 456,
    };
    assert_eq!(decode_with_resolution(w, LocalResolution::Unique), Ok(expected));
    // Through the local zone as well: midnight of December 25th sits in no
    // zone's clock fold or gap.
    assert_eq!(decode(w), Ok(expected));
}

#[test]
fn decode_rejects_february_thirtieth() {
    for year in [1900u64, 1999, 2000, 2023, 2024] {
        let w = pack_record(year, 1, 29, 12, 0, 0, 10, 20);
        assert_eq!(decode(w), Err(DecodeError::InvalidDate));
        for res in [
            LocalResolution::Unique,
            LocalResolution::Ambiguous,
            LocalResolution::Nonexistent,
        ] {
            assert_eq!(decode_with_resolution(w, res), Err(DecodeError::InvalidDate));
        }
    }
}

#[test]
fn decode_rejects_illegal_time_of_day() {
    // Hour field 24 and second field 60 are expressible in the bit widths
    // but name no time of day.
    let late_hour = pack_record(2023, 5, 14, 24, 0, 0, 0, 0);
    assert_eq!(decode(late_hour), Err(DecodeError::InvalidTime));
    let leap_second = pack_record(2023, 5, 14, 12, 0, 60, 0, 0);
    assert_eq!(decode(leap_second), Err(DecodeError::InvalidTime));
}

#[test]
fn decode_checks_date_before_time() {
    let w = pack_record(2023, 1, 29, 24, 0, 0, 0, 0);
    assert_eq!(decode(w), Err(DecodeError::InvalidDate));
}

#[test]
fn decode_reports_zone_resolution() {
    let w = pack_record(2024, 2, 30, 2, 30, 0, 0, 0);
    assert_eq!(
        decode_with_resolution(w, LocalResolution::Ambiguous),
        Err(DecodeError::AmbiguousTime)
    );
    assert_eq!(
        decode_with_resolution(w, LocalResolution::Nonexistent),
        Err(DecodeError::ImpossibleTime)
    );
}

#[test]
fn decode_is_idempotent() {
    let w = pack_record(2023, 11, 24, 23, 59, 58, 123, 456);
    assert_eq!(decode(w), decode(w));
    assert_eq!(
        decode_with_resolution(w, LocalResolution::Unique),
        decode_with_resolution(w, LocalResolution::Unique)
    );
    let bad = pack_record(2023, 1, 29, 12, 0, 0, 0, 0);
    assert_eq!(decode(bad), decode(bad));
}

//! Measurement codec: decodes the fixed 8-byte little-endian record the
//! station streams, validating the calendar legality of its timestamp.
//!
//! Field layout of the 64-bit word (bit 0 = least significant): bits 0-5
//! second, 6-11 minute, 12-16 hour, 17-21 zero-based day, 22-25 zero-based
//! month, 26-41 year, 42-50 raw temperature, 51-60 raw humidity. The raw
//! readings are tenths of a unit; scaling them is the sink's declared
//! responsibility, so the codec hands them on as plain integers.

use vstd::prelude::*;
use crate::LocalTimestamp;
use crate::calendar::is_valid_date;
use crate::calendar::is_valid_time;
use crate::calendar::valid_date;
use crate::calendar::valid_time;

verus! {

/// One decoded record: a local timestamp plus two raw integer readings.
#[derive(Clone, Copy, Debug, PartialEq, Eq, Structural)]
pub struct Measurement {
    pub time: LocalTimestamp,
    pub temp: i32,
    pub humidity: i32,
}

/// Why a packed record was rejected.
#[derive(Clone, Copy, Debug, PartialEq, Eq, Structural)]
pub enum DecodeError {
    /// The (year, month, day) fields name no real calendar date.
    InvalidDate,
    /// The (hour, minute, second) fields name no legal time of day.
    InvalidTime,
    /// The local clock passes through this wall-clock time twice.
    AmbiguousTime,
    /// The local clock skips this wall-clock time entirely.
    ImpossibleTime,
}

/// How the local time zone maps a wall-clock date and time to an instant.
#[derive(Clone, Copy, Debug, PartialEq, Eq, Structural)]
pub enum LocalResolution {
    /// Exactly one local instant carries this wall-clock time.
    Unique,
    /// Two local instants carry it (a clock fold, e.g. at the end of
    /// daylight saving time).
    Ambiguous,
    /// No local instant carries it (a clock gap, e.g. at the start of
    /// daylight saving time).
    Nonexistent,
}

/// The second field of a packed record: bits 0-5.
pub open spec fn field_second(w: u64) -> int {
    (w as int) % 0x40
}

/// The minute field: bits 6-11.
pub open spec fn field_minute(w: u64) -> int {
    (w as int) / 0x40 % 0x40
}

/// The hour field: bits 12-16.
pub open spec fn field_hour(w: u64) -> int {
    (w as int) / 0x1000 % 0x20
}

/// The 1-based day of month: bits 17-21 hold it zero-based.
pub open spec fn field_day(w: u64) -> int {
    (w as int) / 0x20000 % 0x20 + 1
}

/// The 1-based month: bits 22-25 hold it zero-based.
pub open spec fn field_month(w: u64) -> int {
    (w as int) / 0x400000 % 0x10 + 1
}

/// The absolute year: bits 26-41.
pub open spec fn field_year(w: u64) -> int {
    (w as int) / 0x4000000 % 0x10000
}

/// The raw temperature reading in tenths of a unit: bits 42-50.
pub open spec fn field_temp(w: u64) -> int {
    (w as int) / 0x40000000000 % 0x200
}

/// The raw humidity reading in tenths of a unit: bits 51-60.
pub open spec fn field_humidity(w: u64) -> int {
    (w as int) / 0x8000000000000 % 0x400
}

/// The packed word's timestamp fields carry a real calendar date.
pub open spec fn word_date_valid(w: u64) -> bool {
    is_valid_date(field_year(w), field_month(w), field_day(w))
}

/// The packed word's timestamp fields carry a legal time of day.
pub open spec fn word_time_valid(w: u64) -> bool {
    is_valid_time(field_hour(w), field_minute(w), field_second(w))
}

/// The measurement a well-formed packed word denotes.
pub open spec fn measurement_of(w: u64) -> Measurement {
    Measurement {
        time: LocalTimestamp {
            year: field_year(w) as u16,
            month: field_month(w) as u8,
            day: field_day(w) as u8,
            hour: field_hour(w) as u8,
            minute: field_minute(w) as u8,
            second: field_second(w) as u8,
        },
        temp: field_temp(w) as i32,
        humidity: field_humidity(w) as i32,
    }
}

/// What decoding a packed word yields once the local zone's resolution of
/// its wall-clock time is known: the calendar date is checked first, the
/// time of day second, and only a uniquely resolvable timestamp succeeds.
pub open spec fn decode_spec(w: u64, res: LocalResolution) -> Result<Measurement, DecodeError> {
    if !word_date_valid(w) {
        Err(DecodeError::InvalidDate)
    } else if !word_time_valid(w) {
        Err(DecodeError::InvalidTime)
    } else {
        match res {
            LocalResolution::Unique => Ok(measurement_of(w)),
            LocalResolution::Ambiguous => Err(DecodeError::AmbiguousTime),
            LocalResolution::Nonexistent => Err(DecodeError::ImpossibleTime),
        }
    }
}

/// The timestamp fields of a packed word, extracted as plain values.
struct RawFields {
    year: u16,
    month: u8,
    day: u8,
    hour: u8,
    minute: u8,
    second: u8,
    temp: i32,
    humidity: i32,
}

/// Extracts every field of a packed record by shifting and masking.
fn split_fields(w: u64) -> (r: RawFields)
    ensures
        r.year as int == field_year(w),
        r.month as int == field_month(w),
        r.day as int == field_day(w),
        r.hour as int == field_hour(w),
        r.minute as int == field_minute(w),
        r.second as int == field_second(w),
        r.temp as int == field_temp(w),
        r.humidity as int == field_humidity(w),
{
    proof {
        assert(
            (w & 0x3f) == w % 0x40
            && ((w >> 6u64) & 0x3f) == w / 0x40 % 0x40
            && ((w >> 12u64) & 0x1f) == w / 0x1000 % 0x20
            && ((w >> 17u64) & 0x1f) == w / 0x20000 % 0x20
            && ((w >> 22u64) & 0xf) == w / 0x400000 % 0x10
            && ((w >> 26u64) & 0xffff) == w / 0x4000000 % 0x10000
            && ((w >> 42u64) & 0x1ff) == w / 0x40000000000 % 0x200
            && ((w >> 51u64) & 0x3ff) == w / 0x8000000000000 % 0x400
        ) by (bit_vector);
    }
    RawFields {
        year: ((w >> 26) & 0xffff) as u16,
        month: (((w >> 22) & 0xf) + 1) as u8,
        day: (((w >> 17) & 0x1f) + 1) as u8,
        hour: ((w >> 12) & 0x1f) as u8,
        minute: ((w >> 6) & 0x3f) as u8,
        second: (w & 0x3f) as u8,
        temp: ((w >> 42) & 0x1ff) as i32,
        humidity: ((w >> 51) & 0x3ff) as i32,
    }
}

/// Decodes a packed record, taking the local zone's resolution of its
/// wall-clock time as an argument. Deterministic: the result is a pure
/// function of the word and the resolution.
pub fn decode_with_resolution(word: u64, res: LocalResolution) -> (r: Result<
    Measurement,
    DecodeError,
>)
    ensures
        r == decode_spec(word, res),
{
    let f = split_fields(word);
    if !valid_date(f.year, f.month, f.day) {
        Err(DecodeError::InvalidDate)
    } else if !valid_time(f.hour, f.minute, f.second) {
        Err(DecodeError::InvalidTime)
    } else {
        match res {
            LocalResolution::Unique => Ok(
                Measurement {
                    time: LocalTimestamp {
                        year: f.year,
                        month: f.month,
                        day: f.day,
                        hour: f.hour,
                        minute: f.minute,
                        second: f.second,
                    },
                    temp: f.temp,
                    humidity: f.humidity,
                },
            ),
            LocalResolution::Ambiguous => Err(DecodeError::AmbiguousTime),
            LocalResolution::Nonexistent => Err(DecodeError::ImpossibleTime),
        }
    }
}

/// Relies on chrono's `TimeZone::from_local_datetime` on `Local` (with
/// `NaiveDate::from_ymd_opt`, `NaiveTime::from_hms_opt` and
/// `NaiveDateTime::new` building its argument): a legal calendar date and
/// time of day resolve, in the process's local zone, to exactly one of a
/// unique instant, an ambiguous one or a nonexistent one. Which of the
/// three comes back depends on the zone, so nothing more is promised.
#[verifier::external_body]
fn resolve_local(
    year: u16,
    month: u8,
    day: u8,
    hour: u8,
    minute: u8,
    second: u8,
) -> (r: LocalResolution)
    requires
        is_valid_date(year as int, month as int, day as int),
        is_valid_time(hour as int, minute as int, second as int),
{
    let date = chrono::NaiveDate::from_ymd_opt(year as i32, month as u32, day as u32).unwrap();
    let time = chrono::NaiveTime::from_hms_opt(hour as u32, minute as u32, second as u32).unwrap();
    match chrono::TimeZone::from_local_datetime(&chrono::Local, &chrono::NaiveDateTime::new(date, time)) {
        chrono::LocalResult::Single(_) => LocalResolution::Unique,
        chrono::LocalResult::Ambiguous(_, _) => LocalResolution::Ambiguous,
        chrono::LocalResult::None => LocalResolution::Nonexistent,
    }
}

/// Decodes a packed record against the process's local time zone. The
/// calendar checks and, on success, the decoded values are pinned; whether
/// a legal wall-clock time is unique, ambiguous or nonexistent is the
/// zone's decision, so for that case the contract only bounds the outcome.
pub fn decode(word: u64) -> (r: Result<Measurement, DecodeError>)
    ensures
        !word_date_valid(word) ==> r == Err::<Measurement, DecodeError>(DecodeError::InvalidDate),
        word_date_valid(word) && !word_time_valid(word) ==> r == Err::<Measurement, DecodeError>(
            DecodeError::InvalidTime,
        ),
        r matches Ok(m) ==> word_date_valid(word) && word_time_valid(word) && m == measurement_of(
            word,
        ),
        word_date_valid(word) && word_time_valid(word) ==> (r matches Err(e) ==> e
            == DecodeError::AmbiguousTime || e == DecodeError::ImpossibleTime),
        exists|res: LocalResolution| r == #[trigger] decode_spec(word, res),
{
    let f = split_fields(word);
    if !valid_date(f.year, f.month, f.day) {
        proof {
            assert(decode_spec(word, LocalResolution::Unique) == Err::<
                Measurement,
                DecodeError,
            >(DecodeError::InvalidDate));
        }
        return Err(DecodeError::InvalidDate);
    }
    if !valid_time(f.hour, f.minute, f.second) {
        proof {
            assert(decode_spec(word, LocalResolution::Unique) == Err::<
                Measurement,
                DecodeError,
            >(DecodeError::InvalidTime));
        }
        return Err(DecodeError::InvalidTime);
    }
    let res = resolve_local(f.year, f.month, f.day, f.hour, f.minute, f.second);
    let r = decode_with_resolution(word, res);
    proof {
        assert(r == decode_spec(word, res));
    }
    r
}

/// Law: a record whose month field reads February and whose day field
/// reads 30 is rejected as an invalid date for every year and under every
/// resolution — no year gives February 30 days.
pub proof fn lemma_february_thirtieth_rejected(word: u64, res: LocalResolution)
    requires
        field_month(word) == 2,
        field_day(word) == 30,
    ensures
        decode_spec(word, res) == Err::<Measurement, DecodeError>(DecodeError::InvalidDate),
{
}

/// Law: over a legal calendar date and time of day the resolution alone
/// decides the outcome — a unique wall-clock time decodes to the word's
/// measurement, a folded one fails as ambiguous, a skipped one as
/// impossible.
pub proof fn lemma_resolution_decides(word: u64)
    requires
        word_date_valid(word),
        word_time_valid(word),
    ensures
        decode_spec(word, LocalResolution::Unique) == Ok::<Measurement, DecodeError>(
            measurement_of(word),
        ),
        decode_spec(word, LocalResolution::Ambiguous) == Err::<Measurement, DecodeError>(
            DecodeError::AmbiguousTime,
        ),
        decode_spec(word, LocalResolution::Nonexistent) == Err::<Measurement, DecodeError>(
            DecodeError::ImpossibleTime,
        ),
{
}

} // verus!

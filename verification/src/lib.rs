//! Ingestion core for a bit-packed environmental sensor protocol.
//!
//! A remote station speaks a compact binary protocol over a byte stream:
//! the client sends its current local time as a 6-byte packed word, the
//! station answers with a 4-byte advisory record count and then streams
//! 8-byte packed measurement records until it closes the connection.
//! This crate holds the verified core of that exchange: the calendar
//! arithmetic, the two codecs, and the session state machine. All I/O and
//! persistence stay outside and hand the core plain values.

use vstd::prelude::*;

pub mod calendar;
pub mod clock;
pub mod measurement;
pub mod session;

verus! {

/// A calendar date and time of day in the local zone, as plain fields.
///
/// No invariant is attached to the type itself: the codecs state in their
/// contracts which field ranges they need or guarantee.
#[derive(Clone, Copy, Debug, PartialEq, Eq, Structural)]
pub struct LocalTimestamp {
    pub year: u16,
    pub month: u8,
    pub day: u8,
    pub hour: u8,
    pub minute: u8,
    pub second: u8,
}

impl LocalTimestamp {
    /// The field ranges the wire formats rely on: a 1-based month and day
    /// and a time of day within its legal bounds.
    pub open spec fn wire_ranges(self) -> bool {
        &&& 1 <= self.month <= 12
        &&& 1 <= self.day <= 31
        &&& self.hour <= 23
        &&& self.minute <= 59
        &&& self.second <= 59
    }
}

} // verus!

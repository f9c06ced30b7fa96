//! Device session: the state machine of one protocol exchange.
//!
//! One run walks `Connected → SentClock → AwaitingCount → ReceivingRecords
//! → Closed`: send the packed local time, read the advisory record count,
//! bound it by the format's theoretical capacity, then accept packed
//! records until the peer closes the stream. The I/O itself lives outside;
//! the session takes the bytes read as plain values, decides every
//! transition, and keeps the decoded measurements in arrival order.

use vstd::prelude::*;
use crate::LocalTimestamp;
use crate::clock::clock_word;
use crate::clock::encode_now;
use crate::measurement::decode;
use crate::measurement::measurement_of;
use crate::measurement::word_date_valid;
use crate::measurement::word_time_valid;
use crate::measurement::DecodeError;
use crate::measurement::Measurement;

verus! {

/// The most records a device can theoretically hold: 512 sectors of 16
/// pages of 32 measurements each.
pub const MAX_MEASUREMENT_COUNT: u32 = 512 * 16 * 32;

/// Where one protocol exchange stands.
#[derive(Clone, Copy, Debug, PartialEq, Eq, Structural)]
pub enum SessionState {
    /// The transport is open; nothing has been exchanged.
    Connected,
    /// The packed clock word has been produced for sending.
    SentClock,
    /// The clock word is on the wire; the count may be read.
    AwaitingCount,
    /// The count was within bounds; records may be accepted.
    ReceivingRecords,
    /// The exchange is over, by clean end of stream or by failure.
    Closed,
}

/// Why the session refused to go on.
#[derive(Clone, Copy, Debug, PartialEq, Eq, Structural)]
pub enum SessionError {
    /// The device advertised more records than the format can hold.
    CountExceedsMaximum,
    /// A packed record failed to decode.
    BadRecord(DecodeError),
}

/// One protocol exchange: the current state and the measurements decoded
/// so far, in arrival order.
pub struct Session {
    pub state: SessionState,
    pub measurements: Vec<Measurement>,
}

impl Session {
    /// A fresh session on a newly opened transport.
    pub fn new() -> (r: Session)
        ensures
            r.state == SessionState::Connected,
            r.measurements@ =~= Seq::<Measurement>::empty(),
    {
        Session { state: SessionState::Connected, measurements: Vec::new() }
    }

    /// Produces the 6-byte packed clock word for the caller to write and
    /// moves to `SentClock`.
    pub fn clock_packet(&mut self, now: &LocalTimestamp) -> (r: [u8; 6])
        requires
            old(self).state == SessionState::Connected,
            now.wire_ranges(),
        ensures
            final(self).state == SessionState::SentClock,
            final(self).measurements == old(self).measurements,
            r@[0] as int == clock_word(*now) % 0x100,
            r@[1] as int == clock_word(*now) / 0x100 % 0x100,
            r@[2] as int == clock_word(*now) / 0x10000 % 0x100,
            r@[3] as int == clock_word(*now) / 0x1000000 % 0x100,
            r@[4] as int == clock_word(*now) / 0x100000000 % 0x100,
            r@[5] as int == clock_word(*now) / 0x10000000000 % 0x100,
    {
        self.state = SessionState::SentClock;
        encode_now(now)
    }

    /// Records that the clock word reached the wire; the advisory count
    /// may now be read.
    pub fn clock_written(&mut self)
        requires
            old(self).state == SessionState::SentClock,
        ensures
            final(self).state == SessionState::AwaitingCount,
            final(self).measurements == old(self).measurements,
    {
        self.state = SessionState::AwaitingCount;
    }

    /// Checks the advertised record count against the theoretical maximum.
    /// The count is advisory: within bounds it merely opens the record
    /// loop, and nothing later holds the device to it.
    pub fn accept_count(&mut self, count: u32) -> (r: Result<(), SessionError>)
        requires
            old(self).state == SessionState::AwaitingCount,
        ensures
            final(self).measurements == old(self).measurements,
            count <= MAX_MEASUREMENT_COUNT ==> r == Ok::<(), SessionError>(())
                && final(self).state == SessionState::ReceivingRecords,
            count > MAX_MEASUREMENT_COUNT ==> r == Err::<(), SessionError>(
                SessionError::CountExceedsMaximum,
            ) && final(self).state == SessionState::Closed,
    {
        if count > MAX_MEASUREMENT_COUNT {
            self.state = SessionState::Closed;
            Err(SessionError::CountExceedsMaximum)
        } else {
            self.state = SessionState::ReceivingRecords;
            Ok(())
        }
    }

    /// Decodes one packed record against the local zone and appends it to
    /// the measurements in arrival order; any decode failure closes the
    /// session. The calendar checks are pinned; whether a legal wall-clock
    /// time resolves uniquely is the zone's decision, so for that case the
    /// contract only bounds the outcome.
    pub fn accept_record(&mut self, word: u64) -> (r: Result<(), SessionError>)
        requires
            old(self).state == SessionState::ReceivingRecords,
        ensures
            !word_date_valid(word) ==> r == Err::<(), SessionError>(
                SessionError::BadRecord(DecodeError::InvalidDate),
            ),
            word_date_valid(word) && !word_time_valid(word) ==> r == Err::<(), SessionError>(
                SessionError::BadRecord(DecodeError::InvalidTime),
            ),
            r is Ok ==> word_date_valid(word) && word_time_valid(word)
                && final(self).state == SessionState::ReceivingRecords
                && final(self).measurements@ =~= old(self).measurements@.push(
                measurement_of(word),
            ),
            r matches Err(e) ==> final(self).state == SessionState::Closed
                && final(self).measurements == old(self).measurements
                && e matches SessionError::BadRecord(_),
            word_date_valid(word) && word_time_valid(word) ==> (r matches Err(e) ==> e
                == SessionError::BadRecord(DecodeError::AmbiguousTime) || e
                == SessionError::BadRecord(DecodeError::ImpossibleTime)),
    {
        match decode(word) {
            Ok(m) => {
                self.measurements.push(m);
                Ok(())
            },
            Err(e) => {
                self.state = SessionState::Closed;
                Err(SessionError::BadRecord(e))
            },
        }
    }

    /// Closes the session after the peer ended the stream cleanly; the
    /// caller then shuts the transport down.
    pub fn close(&mut self)
        requires
            old(self).state == SessionState::ReceivingRecords,
        ensures
            final(self).state == SessionState::Closed,
            final(self).measurements == old(self).measurements,
    {
        self.state = SessionState::Closed;
    }

    /// Hands the decoded measurements out, in arrival order, for the
    /// caller to forward to the sink one at a time.
    pub fn into_measurements(self) -> (r: Vec<Measurement>)
        requires
            self.state == SessionState::Closed,
        ensures
            r == self.measurements,
    {
        self.measurements
    }
}

} // verus!

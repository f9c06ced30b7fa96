//! Time codec: packs a local timestamp into the fixed 6-byte word the
//! station consumes to synchronize its clock.
//!
//! Layout of the 48-bit little-endian word (bit 0 = least significant bit
//! of byte 0): bits 0-5 second, 6-11 minute, 12-16 hour, 17-19 day of week
//! (0 = Sunday), 20-24 zero-based day of month, 25-28 zero-based month,
//! 29-39 the low 11 bits of the year. The remaining bits are zero: the
//! format deliberately truncates the year to the width it allots.

use vstd::prelude::*;
use crate::LocalTimestamp;
use crate::calendar::weekday_from_sunday;
use crate::calendar::weekday_from_sunday0;

verus! {

/// The packed 48-bit clock word for a timestamp, as an unbounded integer.
/// Each field occupies the bit range documented at the top of this module;
/// the day of the week is computed from the date.
pub open spec fn clock_word(ts: LocalTimestamp) -> int {
    ts.second as int
    + ts.minute as int * 0x40
    + ts.hour as int * 0x1000
    + weekday_from_sunday0(ts.year as int, ts.month as int, ts.day as int) * 0x20000
    + (ts.day as int - 1) * 0x100000
    + (ts.month as int - 1) * 0x2000000
    + (ts.year as int % 0x800) * 0x20000000
}

/// Packs `ts` into the 6-byte wire word, little-endian, laid out as
/// documented at the top of this module.
pub fn encode_now(ts: &LocalTimestamp) -> (r: [u8; 6])
    requires
        ts.wire_ranges(),
    ensures
        r@[0] as int == clock_word(*ts) % 0x100,
        r@[1] as int == clock_word(*ts) / 0x100 % 0x100,
        r@[2] as int == clock_word(*ts) / 0x10000 % 0x100,
        r@[3] as int == clock_word(*ts) / 0x1000000 % 0x100,
        r@[4] as int == clock_word(*ts) / 0x100000000 % 0x100,
        r@[5] as int == clock_word(*ts) / 0x10000000000 % 0x100,
{
    let wd: u8 = weekday_from_sunday(ts.year, ts.month, ts.day);
    let s: u64 = ts.second as u64;
    let mi: u64 = ts.minute as u64;
    let h: u64 = ts.hour as u64;
    let w: u64 = wd as u64;
    let d0: u64 = (ts.day - 1) as u64;
    let mo0: u64 = (ts.month - 1) as u64;
    let yl: u64 = (ts.year % 0x800) as u64;
    let word: u64 = s | (mi << 6) | (h << 12) | (w << 17) | (d0 << 20) | (mo0 << 25) | (yl << 29);
    proof {
        assert(
            s | (mi << 6u64) | (h << 12u64) | (w << 17u64) | (d0 << 20u64) | (mo0 << 25u64)
                | (yl << 29u64)
            == s + mi * 0x40 + h * 0x1000 + w * 0x20000 + d0 * 0x100000 + mo0 * 0x2000000
                + yl * 0x20000000
        ) by (bit_vector)
            requires
                s < 60, mi < 60, h < 24, w < 7, d0 < 31, mo0 < 12, yl < 0x800,
        ;
        lemma_le_bytes(word);
    }
    [
        (word & 0xff) as u8,
        ((word >> 8) & 0xff) as u8,
        ((word >> 16) & 0xff) as u8,
        ((word >> 24) & 0xff) as u8,
        ((word >> 32) & 0xff) as u8,
        ((word >> 40) & 0xff) as u8,
    ]
}

/// Shifting and masking a 64-bit word extracts exactly the little-endian
/// byte that division and remainder describe.
proof fn lemma_le_bytes(w: u64)
    ensures
        (w & 0xff) as int == (w as int) % 0x100,
        ((w >> 8u64) & 0xff) as int == (w as int / 0x100) % 0x100,
        ((w >> 16u64) & 0xff) as int == (w as int / 0x10000) % 0x100,
        ((w >> 24u64) & 0xff) as int == (w as int / 0x1000000) % 0x100,
        ((w >> 32u64) & 0xff) as int == (w as int / 0x100000000) % 0x100,
        ((w >> 40u64) & 0xff) as int == (w as int / 0x10000000000) % 0x100,
{
    assert(
        (w & 0xff) == w % 0x100
        && ((w >> 8u64) & 0xff) == (w / 0x100) % 0x100
        && ((w >> 16u64) & 0xff) == (w / 0x10000) % 0x100
        && ((w >> 24u64) & 0xff) == (w / 0x1000000) % 0x100
        && ((w >> 32u64) & 0xff) == (w / 0x100000000) % 0x100
        && ((w >> 40u64) & 0xff) == (w / 0x10000000000) % 0x100
    ) by (bit_vector);
}

} // verus!

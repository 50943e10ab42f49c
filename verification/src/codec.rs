//! The packed register layout: how hours, weekday and control bits are
//! encoded into single register bytes, and how incoming bytes are decoded
//! back into calendar fields.

use vstd::prelude::*;
use crate::bcd::{spec_to_bcd, spec_from_bcd, to_bcd, from_bcd};

verus! {

/// Hour-register bit selecting 12-hour mode.
pub const HOURS_12: u8 = 0x40;
/// Hour-register bit marking PM in 12-hour mode.
pub const HOURS_PM: u8 = 0x20;
/// Control-register oscillator-fail latch.
pub const CTRL_OSF: u8 = 0x20;
/// The control-register bits that exist; all others read back as zero.
pub const CTRL_MASK: u8 = 0xB3;

/// The hour-register byte for wall-clock hour `hour` in 12-hour mode:
/// hours 1–12 in BCD with the mode bit set, and the PM bit for the
/// afternoon half. Hours 0 and 12 both display as 12, AM and PM.
pub open spec fn spec_hours_byte_12(hour: u8) -> u8 {
    let t = if hour % 12 == 0 { (hour + 12) as u8 } else { hour };
    if t <= 12 {
        HOURS_12 | spec_to_bcd(t)
    } else {
        HOURS_12 | HOURS_PM | spec_to_bcd((t - 12) as u8)
    }
}

/// The hour-register byte for `hour`, honouring the mode bit already
/// stored in the hour register: 12-hour encoding if it is set, plain
/// 24-hour BCD otherwise.
pub open spec fn spec_hours_byte(mode_byte: u8, hour: u8) -> u8 {
    if mode_byte & HOURS_12 != 0 {
        spec_hours_byte_12(hour)
    } else {
        spec_to_bcd(hour)
    }
}

/// The wall-clock hour an incoming hour-register byte stands for; the
/// exact inverse of [`spec_hours_byte`] on well-formed bytes, and total on
/// all bytes (a nonsense byte decodes to whatever its digits say).
pub open spec fn spec_hour_of_byte(data: u8) -> int {
    if data & HOURS_12 != 0 {
        let t0 = spec_from_bcd(data & ((HOURS_PM - 1) as u8)) as int;
        let t1 = if data & HOURS_PM != 0 { t0 + 12 } else { t0 };
        if t1 % 12 == 0 {
            t1 - 12
        } else {
            t1
        }
    } else {
        spec_from_bcd(data & ((HOURS_12 - 1) as u8)) as int
    }
}

/// The weekday-register byte: the wall-clock weekday shifted by the
/// user-assigned offset, presented in the chip's 1–7 range.
pub open spec fn spec_wday_byte(wday: u8, woff: u8) -> u8 {
    ((wday + woff) % 7 + 1) as u8
}

/// The weekday offset that makes the displayed weekday equal the one the
/// master wrote: user weekday minus wall weekday, modulo 7.
pub open spec fn spec_wday_offset(data: u8, wday: u8) -> u8 {
    (((data & 7) - 1 - wday + 7) % 7) as u8
}

/// The byte a control-register write stores: the written byte masked to
/// the defined bits, except that the oscillator-fail latch keeps its old
/// value once set — a write can set it or leave it, never clear it.
pub open spec fn spec_control_byte(data: u8, stored: u8) -> u8 {
    ((data & CTRL_MASK) & !CTRL_OSF) | (((data & CTRL_MASK) | stored) & CTRL_OSF)
}

/// Encodes `hour` into the hour-register byte, keeping the 12/24-hour
/// mode already chosen in the stored hour register.
pub fn encode_hours_byte(mode_byte: u8, hour: u8) -> (r: u8)
    requires
        hour < 24,
    ensures
        r == spec_hours_byte(mode_byte, hour),
{
    if mode_byte & HOURS_12 != 0 {
        let mut tmp: u8 = hour;
        if tmp % 12 == 0 {
            tmp = tmp + 12;
        }
        if tmp <= 12 {
            HOURS_12 | to_bcd(tmp)
        } else {
            HOURS_12 | HOURS_PM | to_bcd(tmp - 12)
        }
    } else {
        to_bcd(hour)
    }
}

/// Law: encoding any wall-clock hour and decoding the byte again gives
/// the hour back, whichever 12/24-hour mode the stored hour register
/// selects.
pub proof fn lemma_hours_round_trip(mode_byte: u8, hour: u8)
    requires
        hour < 24,
    ensures
        spec_hour_of_byte(spec_hours_byte(mode_byte, hour)) == hour,
{
    if mode_byte & HOURS_12 != 0 {
        lemma_hours_12_round_trip(hour);
    } else {
        assert(spec_hour_of_byte(spec_to_bcd(hour)) == hour) by (bit_vector)
            requires
                hour < 24,
        ;
    }
}

/// Law: the 12-hour encoding is a bijection between wall-clock hours and
/// the displayed 1–12 values with an AM/PM bit — decoding inverts it on
/// every hour, the PM bit stands exactly for the afternoon half, and
/// wall-clock hours 0 and 12 both display as 12, AM and PM respectively.
pub proof fn lemma_hours_12_round_trip(hour: u8)
    requires
        hour < 24,
    ensures
        spec_hour_of_byte(spec_hours_byte_12(hour)) == hour,
        hour < 12 ==> spec_hours_byte_12(hour) & HOURS_PM == 0,
        hour >= 12 ==> spec_hours_byte_12(hour) & HOURS_PM == HOURS_PM,
        hour == 0 ==> spec_hours_byte_12(hour) == (HOURS_12 | 0x12),
        hour == 12 ==> spec_hours_byte_12(hour) == (HOURS_12 | HOURS_PM | 0x12),
{
    assert(spec_hour_of_byte(spec_hours_byte_12(hour)) == hour) by (bit_vector)
        requires
            hour < 24,
    ;
    assert(hour < 12 ==> spec_hours_byte_12(hour) & HOURS_PM == 0) by (bit_vector)
        requires
            hour < 24,
    ;
    assert(hour >= 12 ==> spec_hours_byte_12(hour) & HOURS_PM == HOURS_PM) by (bit_vector)
        requires
            hour < 24,
    ;
    assert(hour == 0 ==> spec_hours_byte_12(hour) == (HOURS_12 | 0x12)) by (bit_vector);
    assert(hour == 12 ==> spec_hours_byte_12(hour) == (HOURS_12 | HOURS_PM | 0x12)) by (bit_vector);
}

/// Law: re-encoding the weekday byte a capture produced recomputes the
/// very weekday offset it was produced with.
pub proof fn lemma_wday_round_trip(wday: u8, woff: u8)
    requires
        wday < 7,
        woff < 7,
    ensures
        spec_wday_offset(spec_wday_byte(wday, woff), wday) == woff,
{
    assert(spec_wday_offset(spec_wday_byte(wday, woff), wday) == woff) by (bit_vector)
        requires
            wday < 7 && woff < 7,
    ;
}

/// Law: a control-register write keeps only the defined bits of the
/// written byte, and the oscillator-fail latch can be set or left
/// standing but never cleared — once the stored bit is high, it stays
/// high through every ordinary write.
pub proof fn lemma_osf_latch(data: u8, stored: u8)
    ensures
        spec_control_byte(data, stored) & !CTRL_MASK == 0,
        stored & CTRL_OSF != 0 ==> spec_control_byte(data, stored) & CTRL_OSF == CTRL_OSF,
        data & CTRL_OSF != 0 ==> spec_control_byte(data, stored) & CTRL_OSF == CTRL_OSF,
        stored & CTRL_OSF == 0 && data & CTRL_OSF == 0 ==> spec_control_byte(data, stored)
            & CTRL_OSF == 0,
        spec_control_byte(data, stored) & ((CTRL_MASK & !CTRL_OSF) as u8) == data & ((CTRL_MASK
            & !CTRL_OSF) as u8),
{
    assert(spec_control_byte(data, stored) & !CTRL_MASK == 0) by (bit_vector);
    assert(stored & CTRL_OSF != 0 ==> spec_control_byte(data, stored) & CTRL_OSF == CTRL_OSF)
        by (bit_vector);
    assert(data & CTRL_OSF != 0 ==> spec_control_byte(data, stored) & CTRL_OSF == CTRL_OSF)
        by (bit_vector);
    assert(stored & CTRL_OSF == 0 && data & CTRL_OSF == 0 ==> spec_control_byte(data, stored)
        & CTRL_OSF == 0) by (bit_vector);
    assert(spec_control_byte(data, stored) & ((CTRL_MASK & !CTRL_OSF) as u8) == data & ((CTRL_MASK
        & !CTRL_OSF) as u8)) by (bit_vector);
}

/// Decodes an incoming hour-register byte into a wall-clock hour, reading
/// the 12/24-hour mode and the PM bit from the byte itself.
pub fn decode_hour(data: u8) -> (h: i32)
    ensures
        h == spec_hour_of_byte(data),
{
    if data & HOURS_12 != 0 {
        let mut tmp: i32 = from_bcd(data & (HOURS_PM - 1)) as i32;
        if data & HOURS_PM != 0 {
            tmp = tmp + 12;
        }
        if tmp % 12 == 0 {
            tmp = tmp - 12;
        }
        tmp
    } else {
        from_bcd(data & (HOURS_12 - 1)) as i32
    }
}

} // verus!

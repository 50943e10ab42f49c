//! The wall-clock calendar breakdown handed in by the host's time source.
//!
//! The host queries its clock, shifted by the chip's current offset, and
//! passes the result here as plain integers. Calendar normalization and
//! time zones are the host's business; the register file only encodes and
//! decodes fields of this shape.

use vstd::prelude::*;

verus! {

/// A calendar breakdown: one wall-clock instant split into fields.
///
/// `year` counts from 1900 and `mon` from 0, as the host's clock library
/// reports them; `wday` is 0 for Sunday.
#[derive(Clone, Copy, Debug, PartialEq, Eq, Structural)]
pub struct Tm {
    /// Seconds, 0–59.
    pub sec: i32,
    /// Minutes, 0–59.
    pub min: i32,
    /// Hours, 0–23.
    pub hour: i32,
    /// Day of week, 0–6 with 0 = Sunday.
    pub wday: i32,
    /// Day of month, 1–31.
    pub mday: i32,
    /// Month, 0–11.
    pub mon: i32,
    /// Years since 1900. The chip's century runs from 2000, so 100–199.
    pub year: i32,
}

impl Tm {
    /// Every field lies in the range the chip can represent.
    pub open spec fn wf(self) -> bool {
        &&& 0 <= self.sec < 60
        &&& 0 <= self.min < 60
        &&& 0 <= self.hour < 24
        &&& 0 <= self.wday < 7
        &&& 1 <= self.mday <= 31
        &&& 0 <= self.mon < 12
        &&& 100 <= self.year <= 199
    }

    /// Tests [`Tm::wf`] at run time, for callers that receive a
    /// breakdown from an unchecked clock.
    pub fn valid(&self) -> (r: bool)
        ensures
            r == self.wf(),
    {
        0 <= self.sec && self.sec < 60 && 0 <= self.min && self.min < 60 && 0 <= self.hour
            && self.hour < 24 && 0 <= self.wday && self.wday < 7 && 1 <= self.mday && self.mday
            <= 31 && 0 <= self.mon && self.mon < 12 && 100 <= self.year && self.year <= 199
    }
}

} // verus!

//! The bus-slave adapter: turns byte-level events from the two-wire bus
//! dispatcher into register-file operations.
//!
//! The host delivers events serially — there is never a concurrent call
//! into one device — and supplies with each call the current wall-clock
//! breakdown `now`, read at the chip's stored offset. When a master byte
//! lands in a time register, [`DS1338State::send`] hands the mutated
//! breakdown back; the host turns it into a signed-second offset with its
//! time source and stores it through [`DS1338Inner::set_offset`].

use vstd::prelude::*;
use crate::codec::{spec_control_byte, spec_wday_offset};
use crate::registers::{captured_bytes, capture_relates, spec_advance, spec_time_write, DS1338Inner};
use crate::time::Tm;

verus! {

/// A bus-state transition delivered by the dispatcher.
#[derive(Clone, Copy, Debug, PartialEq, Eq, Structural)]
pub enum I2CEvent {
    /// Start condition for a read burst by the master.
    StartRecv,
    /// Start condition for a write burst by the master.
    StartSend,
    /// Stop condition: the transaction is over.
    Finish,
    /// The master declined a byte.
    Nack,
}

/// The acknowledgement the device answers a master write with.
#[derive(Clone, Copy, Debug, PartialEq, Eq, Structural)]
pub enum I2CResult {
    /// Byte accepted.
    Ack,
    /// Byte declined; this model never answers it.
    Nack,
}

/// The device as the bus sees it: the register file behind the bus
/// protocol glue.
#[derive(Clone, Copy, Debug)]
pub struct DS1338State {
    /// The register file the adapter drives.
    pub inner: DS1338Inner,
}

impl DS1338State {
    /// A freshly constructed device.
    pub fn new() -> (s: Self)
        ensures
            s.inner.offset == 0,
            s.inner.wday_offset == 0,
            s.inner.ptr == 0,
            s.inner.addr_byte == false,
            forall|i: int| 0 <= i < 64 ==> s.inner.nvram@[i] == 0,
            s.inner.wf(),
    {
        DS1338State { inner: DS1338Inner::new() }
    }

    /// The master reads one byte: the byte under the register pointer is
    /// returned and the pointer moves on, re-latching the clock from
    /// `now` if it wrapped.
    pub fn recv(&mut self, now: &Tm) -> (r: u8)
        requires
            old(self).inner.wf(),
            now.wf(),
        ensures
            r == old(self).inner.nvram@[old(self).inner.ptr as int],
            final(self).inner.wf(),
            final(self).inner.ptr == spec_advance(old(self).inner.ptr as int),
            old(self).inner.ptr != 63 ==> final(self).inner == (DS1338Inner {
                ptr: (old(self).inner.ptr + 1) as i32,
                ..old(self).inner
            }),
            old(self).inner.ptr == 63 ==> capture_relates(
                (DS1338Inner { ptr: 0, ..old(self).inner }),
                final(self).inner,
                *now,
            ),
    {
        let res = self.inner.get_reg();
        self.inner.inc_regptr(now);
        res
    }

    /// The master writes one byte.
    ///
    /// In the addressing phase the byte becomes the new register pointer.
    /// Otherwise it is dispatched by the pointer — time register, control
    /// register or nonvolatile byte — and the pointer moves on. Every
    /// byte is acknowledged. A time-register write returns the mutated
    /// breakdown in the second component; the host must answer it by
    /// storing the offset its time source computes from that breakdown.
    pub fn send(&mut self, data: u8, now: &Tm) -> (r: (I2CResult, Option<Tm>))
        requires
            old(self).inner.wf(),
            now.wf(),
        ensures
            r.0 == I2CResult::Ack,
            final(self).inner.wf(),
            old(self).inner.addr_byte ==> final(self).inner == (DS1338Inner {
                ptr: (data & 63) as i32,
                addr_byte: false,
                ..old(self).inner
            }) && r.1 is None,
            !old(self).inner.addr_byte && old(self).inner.ptr < 7 && old(self).inner.ptr != 3
                ==> final(self).inner == (DS1338Inner {
                ptr: (old(self).inner.ptr + 1) as i32,
                ..old(self).inner
            }) && r.1 == Some(spec_time_write(*now, old(self).inner.ptr as int, data)),
            !old(self).inner.addr_byte && old(self).inner.ptr == 3 ==> final(self).inner == (
            DS1338Inner {
                ptr: 4,
                wday_offset: spec_wday_offset(data, now.wday as u8),
                ..old(self).inner
            }) && r.1 == Some(*now),
            !old(self).inner.addr_byte && old(self).inner.ptr == 7 ==> final(self).inner == (
            DS1338Inner {
                ptr: 8,
                nvram: final(self).inner.nvram,
                ..old(self).inner
            }) && final(self).inner.nvram@ == old(self).inner.nvram@.update(
                7,
                spec_control_byte(data, old(self).inner.nvram@[7]),
            ) && r.1 is None,
            !old(self).inner.addr_byte && 7 < old(self).inner.ptr < 63 ==> final(self).inner == (
            DS1338Inner {
                ptr: (old(self).inner.ptr + 1) as i32,
                nvram: final(self).inner.nvram,
                ..old(self).inner
            }) && final(self).inner.nvram@ == old(self).inner.nvram@.update(
                old(self).inner.ptr as int,
                data,
            ) && r.1 is None,
            !old(self).inner.addr_byte && old(self).inner.ptr == 63 ==> final(self).inner == (
            DS1338Inner {
                ptr: 0,
                nvram: final(self).inner.nvram,
                ..old(self).inner
            }) && captured_bytes(
                final(self).inner.nvram@,
                old(self).inner.nvram@.update(63, data),
                old(self).inner.wday_offset,
                *now,
            ) && r.1 is None,
    {
        if self.inner.addr_byte {
            self.inner.set_ptr(data);
            self.inner.addr_byte = false;
            return (I2CResult::Ack, None);
        }
        if self.inner.ptr < 7 {
            let t = self.inner.write_time_register(data, now);
            self.inner.inc_regptr(now);
            (I2CResult::Ack, Some(t))
        } else if self.inner.ptr == 7 {
            self.inner.write_control_register(data);
            self.inner.inc_regptr(now);
            (I2CResult::Ack, None)
        } else {
            self.inner.write_nvram(data);
            self.inner.inc_regptr(now);
            (I2CResult::Ack, None)
        }
    }

    /// A bus-state transition: a read start re-latches the clock from
    /// `now`, a write start opens the addressing phase, everything else
    /// changes nothing. The answer is the adapter's fixed default.
    pub fn event(&mut self, event: I2CEvent, now: &Tm) -> (r: I2CEvent)
        requires
            old(self).inner.wf(),
            now.wf(),
        ensures
            r == I2CEvent::StartRecv,
            final(self).inner.wf(),
            event == I2CEvent::StartRecv ==> capture_relates(
                old(self).inner,
                final(self).inner,
                *now,
            ),
            event == I2CEvent::StartSend ==> final(self).inner == (DS1338Inner {
                addr_byte: true,
                ..old(self).inner
            }),
            event != I2CEvent::StartRecv && event != I2CEvent::StartSend ==> *final(self) == *old(
                self,
            ),
    {
        match event {
            I2CEvent::StartRecv => {
                self.inner.capture_current_time(now);
            },
            I2CEvent::StartSend => {
                self.inner.addr_byte = true;
            },
            _ => {},
        }
        I2CEvent::StartRecv
    }

    /// The reset entry point: the synchronous full clear back to the
    /// state of a fresh device, whatever phase the bus was in.
    pub fn reset_hold(&mut self)
        ensures
            final(self).inner.offset == 0,
            final(self).inner.wday_offset == 0,
            final(self).inner.ptr == 0,
            final(self).inner.addr_byte == false,
            forall|i: int| 0 <= i < 64 ==> final(self).inner.nvram@[i] == 0,
            final(self).inner.wf(),
    {
        self.inner.reset();
    }
}

impl Default for DS1338State {
    /// Same state as [`DS1338State::new`].
    fn default() -> (s: Self)
        ensures
            s.inner.offset == 0,
            s.inner.wday_offset == 0,
            s.inner.ptr == 0,
            s.inner.addr_byte == false,
            forall|i: int| 0 <= i < 64 ==> s.inner.nvram@[i] == 0,
            s.inner.wf(),
    {
        Self::new()
    }
}

} // verus!

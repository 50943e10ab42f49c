//! The register file: the chip's 64-byte address space, the
//! auto-incrementing register pointer, the addressing-phase flag and the
//! two time-correction values.
//!
//! Addresses 0–6 are the time/calendar registers (seconds, minutes, hours,
//! weekday, day of month, month, year), address 7 is the control byte and
//! addresses 8–63 are general-purpose nonvolatile storage.

use vstd::prelude::*;
use vstd::arithmetic::div_mod::{
    lemma_add_mod_noop, lemma_mod_add_multiples_vanish, lemma_mod_sub_multiples_vanish,
    lemma_small_mod,
};
use crate::bcd::{spec_to_bcd, spec_from_bcd, to_bcd, from_bcd};
use crate::codec::{
    spec_hours_byte, spec_hour_of_byte, spec_wday_byte, spec_wday_offset, spec_control_byte,
    encode_hours_byte, decode_hour, lemma_hours_round_trip, lemma_wday_round_trip,
};
use crate::time::Tm;

verus! {

/// Size of the chip's whole address space, time registers included.
pub const NVRAM_SIZE: usize = 64;

/// The register file.
///
/// `offset` is the signed number of seconds to add to the host's wall
/// clock to obtain the chip's notion of time; `wday_offset` shifts the
/// wall-clock weekday (mod 7) to the numbering the master last wrote.
#[derive(Clone, Copy, Debug)]
pub struct DS1338Inner {
    /// Seconds added to the wall clock to get the chip's time.
    pub offset: i64,
    /// Added (mod 7) to the wall-clock weekday before display.
    pub wday_offset: u8,
    /// The 64-byte address space.
    pub nvram: [u8; NVRAM_SIZE],
    /// Current register address; every access happens here.
    pub ptr: i32,
    /// True only between a send-start event and the first data byte.
    pub addr_byte: bool,
}

/// How re-latching the clock rewrites the byte storage alone: the seven
/// time registers are re-encoded from the breakdown `now` (the hour
/// register keeps the 12/24-hour mode bit that `pre` carried in it, and
/// the weekday register is shifted by `woff`), and every byte from the
/// control register up is untouched.
pub open spec fn captured_bytes(post: Seq<u8>, pre: Seq<u8>, woff: u8, now: Tm) -> bool {
    &&& post[0] == spec_to_bcd(now.sec as u8)
    &&& post[1] == spec_to_bcd(now.min as u8)
    &&& post[2] == spec_hours_byte(pre[2], now.hour as u8)
    &&& post[3] == spec_wday_byte(now.wday as u8, woff)
    &&& post[4] == spec_to_bcd(now.mday as u8)
    &&& post[5] == spec_to_bcd((now.mon + 1) as u8)
    &&& post[6] == spec_to_bcd((now.year - 100) as u8)
    &&& forall|i: int| 7 <= i < 64 ==> post[i] == pre[i]
}

/// How `capture_current_time` rewrites a register file: the time
/// registers are re-encoded from the breakdown `now` as in
/// [`captured_bytes`], everything else is untouched.
pub open spec fn capture_relates(pre: DS1338Inner, post: DS1338Inner, now: Tm) -> bool {
    &&& post.offset == pre.offset
    &&& post.wday_offset == pre.wday_offset
    &&& post.ptr == pre.ptr
    &&& post.addr_byte == pre.addr_byte
    &&& captured_bytes(post.nvram@, pre.nvram@, pre.wday_offset, now)
}

/// The breakdown a time-register write produces: exactly one calendar
/// field of `now` is replaced by the decoded incoming byte. Address 3
/// (weekday) changes no field here — it only retargets `wday_offset` —
/// and addresses outside 0–6 leave the breakdown alone.
pub open spec fn spec_time_write(now: Tm, addr: int, data: u8) -> Tm {
    if addr == 0 {
        Tm { sec: spec_from_bcd(data & 0x7f) as i32, ..now }
    } else if addr == 1 {
        Tm { min: spec_from_bcd(data & 0x7f) as i32, ..now }
    } else if addr == 2 {
        Tm { hour: spec_hour_of_byte(data) as i32, ..now }
    } else if addr == 4 {
        Tm { mday: spec_from_bcd(data & 0x3f) as i32, ..now }
    } else if addr == 5 {
        Tm { mon: (spec_from_bcd(data & 0x1f) - 1) as i32, ..now }
    } else if addr == 6 {
        Tm { year: (spec_from_bcd(data) + 100) as i32, ..now }
    } else {
        now
    }
}

impl DS1338Inner {
    /// The register pointer addresses a real byte of storage.
    pub open spec fn wf(self) -> bool {
        0 <= self.ptr < 64
    }

    /// A fresh register file: zero offset, zero storage, pointer at the
    /// seconds register, not in the addressing phase.
    pub fn new() -> (s: Self)
        ensures
            s.offset == 0,
            s.wday_offset == 0,
            s.ptr == 0,
            s.addr_byte == false,
            forall|i: int| 0 <= i < 64 ==> s.nvram@[i] == 0,
            s.wf(),
    {
        let s = DS1338Inner {
            offset: 0,
            wday_offset: 0,
            nvram: [0u8; NVRAM_SIZE],
            ptr: 0,
            addr_byte: false,
        };
        s
    }

    /// Re-latches the clock: encodes the breakdown `now` into the seven
    /// time registers, leaving the control byte and the nonvolatile bytes
    /// untouched.
    pub fn capture_current_time(&mut self, now: &Tm)
        requires
            old(self).wf(),
            now.wf(),
        ensures
            capture_relates(*old(self), *final(self), *now),
            final(self).wf(),
    {
        self.nvram[0] = to_bcd(now.sec as u8);
        self.nvram[1] = to_bcd(now.min as u8);
        let hours = encode_hours_byte(self.nvram[2], now.hour as u8);
        self.nvram[2] = hours;
        self.nvram[3] = ((now.wday + self.wday_offset as i32) % 7 + 1) as u8;
        self.nvram[4] = to_bcd(now.mday as u8);
        self.nvram[5] = to_bcd((now.mon + 1) as u8);
        self.nvram[6] = to_bcd((now.year - 100) as u8);
    }

    /// Moves the register pointer forward one address, wrapping from 63
    /// back to 0; the wrap re-latches the clock from `now`, as the real
    /// chip does once a full pass completes.
    pub fn inc_regptr(&mut self, now: &Tm)
        requires
            old(self).wf(),
            now.wf(),
        ensures
            final(self).wf(),
            final(self).ptr == spec_advance(old(self).ptr as int),
            old(self).ptr != 63 ==> *final(self) == (DS1338Inner {
                ptr: (old(self).ptr + 1) as i32,
                ..*old(self)
            }),
            old(self).ptr == 63 ==> capture_relates(
                (DS1338Inner { ptr: 0, ..*old(self) }),
                *final(self),
                *now,
            ),
    {
        self.ptr = (self.ptr + 1) % 64;
        if self.ptr == 0 {
            self.capture_current_time(now);
        }
    }

    /// Reads the byte the register pointer addresses; no side effect.
    pub fn get_reg(&self) -> (r: u8)
        requires
            self.wf(),
        ensures
            r == self.nvram@[self.ptr as int],
    {
        self.nvram[self.ptr as usize]
    }

    /// Points the register pointer at `data`, taken modulo the size of
    /// the address space.
    pub fn set_ptr(&mut self, data: u8)
        ensures
            *final(self) == (DS1338Inner { ptr: (data & 63) as i32, ..*old(self) }),
            final(self).wf(),
    {
        proof {
            assert(data & 63 < 64) by (bit_vector);
        }
        self.ptr = (data & 63) as i32;
    }

    /// A write to one of the seven time registers.
    ///
    /// Decodes the incoming byte into the calendar field the pointer
    /// addresses and returns the breakdown with that one field replaced;
    /// the caller asks the host's time source for the signed-second
    /// difference between that breakdown and "now" and stores it through
    /// [`DS1338Inner::set_offset`]. A write to the weekday register
    /// instead recomputes `wday_offset`, leaving the breakdown as it was.
    pub fn write_time_register(&mut self, data: u8, now: &Tm) -> (t: Tm)
        requires
            old(self).wf(),
            now.wf(),
        ensures
            final(self).nvram == old(self).nvram,
            final(self).ptr == old(self).ptr,
            final(self).addr_byte == old(self).addr_byte,
            final(self).offset == old(self).offset,
            final(self).wf(),
            old(self).ptr == 3 ==> final(self).wday_offset == spec_wday_offset(
                data,
                now.wday as u8,
            ) && t == *now,
            old(self).ptr != 3 ==> final(self).wday_offset == old(self).wday_offset && t
                == spec_time_write(*now, old(self).ptr as int, data),
    {
        let mut t = *now;
        if self.ptr == 0 {
            t.sec = from_bcd(data & 0x7f) as i32;
        } else if self.ptr == 1 {
            t.min = from_bcd(data & 0x7f) as i32;
        } else if self.ptr == 2 {
            t.hour = decode_hour(data);
        } else if self.ptr == 3 {
            let user_wday: i32 = (data & 7) as i32 - 1;
            self.wday_offset = ((user_wday - now.wday + 7) % 7) as u8;
        } else if self.ptr == 4 {
            t.mday = from_bcd(data & 0x3f) as i32;
        } else if self.ptr == 5 {
            t.mon = from_bcd(data & 0x1f) as i32 - 1;
        } else if self.ptr == 6 {
            t.year = from_bcd(data) as i32 + 100;
        }
        t
    }

    /// Stores a fresh clock offset, as computed by the host's time source
    /// from the breakdown a time-register write returned.
    pub fn set_offset(&mut self, offset_seconds: i64)
        ensures
            *final(self) == (DS1338Inner { offset: offset_seconds, ..*old(self) }),
    {
        self.offset = offset_seconds;
    }

    /// A write to the control register at the current pointer: undefined
    /// bits are forced low, and the oscillator-fail latch can be set or
    /// left standing by the written byte, but never cleared.
    pub fn write_control_register(&mut self, data: u8)
        requires
            old(self).wf(),
        ensures
            final(self).nvram@ == old(self).nvram@.update(
                old(self).ptr as int,
                spec_control_byte(data, old(self).nvram@[old(self).ptr as int]),
            ),
            final(self).offset == old(self).offset,
            final(self).wday_offset == old(self).wday_offset,
            final(self).ptr == old(self).ptr,
            final(self).addr_byte == old(self).addr_byte,
            final(self).wf(),
    {
        let masked = data & 0xB3;
        let stored = self.nvram[self.ptr as usize];
        let value = (masked & !0x20u8) | ((masked | stored) & 0x20u8);
        self.nvram[self.ptr as usize] = value;
    }

    /// A plain write to the byte the register pointer addresses.
    pub fn write_nvram(&mut self, data: u8)
        requires
            old(self).wf(),
        ensures
            final(self).nvram@ == old(self).nvram@.update(old(self).ptr as int, data),
            final(self).offset == old(self).offset,
            final(self).wday_offset == old(self).wday_offset,
            final(self).ptr == old(self).ptr,
            final(self).addr_byte == old(self).addr_byte,
            final(self).wf(),
    {
        self.nvram[self.ptr as usize] = data;
    }

    /// The synchronous full clear: every field, storage included, returns
    /// to the state of a fresh device.
    pub fn reset(&mut self)
        ensures
            final(self).offset == 0,
            final(self).wday_offset == 0,
            final(self).ptr == 0,
            final(self).addr_byte == false,
            forall|i: int| 0 <= i < 64 ==> final(self).nvram@[i] == 0,
            final(self).wf(),
    {
        self.offset = 0;
        self.wday_offset = 0;
        self.ptr = 0;
        self.addr_byte = false;
        let mut i: usize = 0;
        while i < NVRAM_SIZE
            invariant
                i <= 64,
                self.offset == 0,
                self.wday_offset == 0,
                self.ptr == 0,
                self.addr_byte == false,
                forall|j: int| 0 <= j < i ==> self.nvram@[j] == 0,
            decreases 64 - i,
        {
            self.nvram[i] = 0;
            i = i + 1;
        }
    }
}

/// One pointer advance: forward one address, wrapping from 63 to 0.
/// `inc_regptr` moves the pointer to exactly this address.
pub open spec fn spec_advance(p: int) -> int {
    (p + 1) % 64
}

/// The address the pointer reaches after `n` advances from `p`.
pub open spec fn spec_advance_n(p: int, n: nat) -> int
    decreases n,
{
    if n == 0 {
        p
    } else {
        spec_advance(spec_advance_n(p, (n - 1) as nat))
    }
}

/// How many of the first `n` advances from `p` wrap to address 0 — each
/// of those is an advance on which `inc_regptr` re-latches the clock.
pub open spec fn spec_wrap_count(p: int, n: nat) -> nat
    decreases n,
{
    if n == 0 {
        0
    } else {
        spec_wrap_count(p, (n - 1) as nat) + (if spec_advance_n(p, n) == 0 {
            1nat
        } else {
            0nat
        })
    }
}

proof fn lemma_advance_n_is_mod(p: int, n: nat)
    requires
        0 <= p < 64,
    ensures
        spec_advance_n(p, n) == (p + n) % 64,
    decreases n,
{
    if n == 0 {
        lemma_small_mod(p as nat, 64nat);
    } else {
        lemma_advance_n_is_mod(p, (n - 1) as nat);
        lemma_small_mod(1nat, 64nat);
        lemma_add_mod_noop(p + n - 1, 1, 64);
    }
}

proof fn lemma_wrap_count_single(p: int, n: nat)
    requires
        0 <= p < 64,
        n <= 64,
    ensures
        spec_wrap_count(p, n) == if p + n >= 64 {
            1nat
        } else {
            0nat
        },
    decreases n,
{
    if n > 0 {
        lemma_wrap_count_single(p, (n - 1) as nat);
        lemma_advance_n_is_mod(p, n);
        if p + n < 64 {
            lemma_small_mod((p + n) as nat, 64nat);
        } else if p + n == 64 {
            lemma_mod_sub_multiples_vanish(p + n, 64);
            lemma_small_mod(0nat, 64nat);
        } else {
            lemma_mod_sub_multiples_vanish(p + n, 64);
            lemma_small_mod((p + n - 64) as nat, 64nat);
        }
    }
}

/// Law: from any address, sixty-four pointer advances walk the whole
/// address space once — the pointer comes back to where it started, and
/// exactly one of the advances wraps to address 0, the one advance on
/// which `inc_regptr` re-latches the clock.
pub proof fn lemma_pointer_full_pass(p: int)
    requires
        0 <= p < 64,
    ensures
        spec_advance_n(p, 64) == p,
        spec_wrap_count(p, 64) == 1,
{
    lemma_advance_n_is_mod(p, 64);
    lemma_mod_add_multiples_vanish(p, 64);
    lemma_small_mod(p as nat, 64nat);
    lemma_wrap_count_single(p, 64);
}

/// Law: writing a time byte back into the register it was captured from
/// reproduces the captured breakdown exactly.
///
/// If `cap` is the register file after a capture of the breakdown `now`,
/// then for every time register but the weekday one, decoding the
/// captured byte mutates `now` into `now` itself — so the signed-second
/// difference the host's time source computes is the difference for the
/// unchanged breakdown, and a further capture writes the same seven
/// bytes again. For the weekday register, decoding the captured byte
/// recomputes the very weekday offset the capture used.
pub proof fn lemma_capture_write_round_trip(
    pre: DS1338Inner,
    cap: DS1338Inner,
    now: Tm,
    addr: int,
)
    requires
        now.wf(),
        capture_relates(pre, cap, now),
        0 <= addr < 7,
        addr == 3 ==> pre.wday_offset < 7,
    ensures
        addr != 3 ==> spec_time_write(now, addr, cap.nvram@[addr]) == now,
        addr == 3 ==> spec_wday_offset(cap.nvram@[addr], now.wday as u8) == pre.wday_offset,
{
    let b = cap.nvram@[addr];
    if addr == 0 {
        let s = now.sec as u8;
        assert(spec_from_bcd(spec_to_bcd(s) & 0x7f) == s) by (bit_vector)
            requires
                s < 60,
        ;
    } else if addr == 1 {
        let m = now.min as u8;
        assert(spec_from_bcd(spec_to_bcd(m) & 0x7f) == m) by (bit_vector)
            requires
                m < 60,
        ;
    } else if addr == 2 {
        lemma_hours_round_trip(pre.nvram@[2], now.hour as u8);
    } else if addr == 3 {
        lemma_wday_round_trip(now.wday as u8, pre.wday_offset);
    } else if addr == 4 {
        let d = now.mday as u8;
        assert(spec_from_bcd(spec_to_bcd(d) & 0x3f) == d) by (bit_vector)
            requires
                d <= 31,
        ;
    } else if addr == 5 {
        let mo = (now.mon + 1) as u8;
        assert(spec_from_bcd(spec_to_bcd(mo) & 0x1f) == mo) by (bit_vector)
            requires
                1 <= mo <= 12,
        ;
    } else {
        let y = (now.year - 100) as u8;
        assert(spec_from_bcd(spec_to_bcd(y)) == y) by (bit_vector)
            requires
                y < 100,
        ;
    }
}

/// Law: re-latching the clock a second time from the same breakdown
/// changes nothing — a capture is idempotent while the wall clock does
/// not advance. In particular the hour register's 12/24-hour mode bit
/// survives a capture, so the encoding the first capture chose is the
/// encoding every later one chooses.
pub proof fn lemma_capture_idempotent(
    pre: DS1338Inner,
    cap: DS1338Inner,
    cap2: DS1338Inner,
    now: Tm,
)
    requires
        now.wf(),
        capture_relates(pre, cap, now),
        capture_relates(cap, cap2, now),
    ensures
        cap2.nvram@ =~= cap.nvram@,
        cap2.offset == cap.offset,
        cap2.wday_offset == cap.wday_offset,
        cap2.ptr == cap.ptr,
        cap2.addr_byte == cap.addr_byte,
{
    let h = now.hour as u8;
    let m = pre.nvram@[2];
    assert(spec_hours_byte(spec_hours_byte(m, h), h) == spec_hours_byte(m, h)) by (bit_vector)
        requires
            h < 24,
    ;
    assert forall|i: int| 0 <= i < 64 implies cap2.nvram@[i] == cap.nvram@[i] by {
    }
}

impl Default for DS1338Inner {
    /// Same state as [`DS1338Inner::new`]: the state a freshly
    /// constructed device starts in.
    fn default() -> (s: Self)
        ensures
            s.offset == 0,
            s.wday_offset == 0,
            s.ptr == 0,
            s.addr_byte == false,
            forall|i: int| 0 <= i < 64 ==> s.nvram@[i] == 0,
            s.wf(),
    {
        Self::new()
    }
}

} // verus!

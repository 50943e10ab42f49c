use ds1338::bus::{DS1338State, I2CEvent, I2CResult};
use ds1338::codec::{decode_hour, encode_hours_byte};
use ds1338::registers::DS1338Inner;
use ds1338::snapshot::Snapshot;
use ds1338::time::Tm;
use ds1338::{from_bcd, to_bcd};

fn wallclock() -> Tm {
    Tm { sec: 30, min: 45, hour: 23, wday: 2, mday: 17, mon: 10, year: 125 }
}

#[test]
fn bcd_exact_values() {
    assert_eq!(to_bcd(0), 0x00);
    assert_eq!(to_bcd(7), 0x07);
    assert_eq!(to_bcd(59), 0x59);
    assert_eq!(to_bcd(99), 0x99);
    assert_eq!(from_bcd(0x00), 0);
    assert_eq!(from_bcd(0x07), 7);
    assert_eq!(from_bcd(0x59), 59);
    assert_eq!(from_bcd(0x99), 99);
    // A byte whose nibbles are not decimal digits still decodes totally.
    assert_eq!(from_bcd(0x7f), 85);
}

#[test]
fn capture_writes_24_hour_bytes() {
    let mut s = DS1338Inner::new();
    let now = wallclock();
    s.capture_current_time(&now);
    assert_eq!(s.nvram[0], 0x30);
    assert_eq!(s.nvram[1], 0x45);
    assert_eq!(s.nvram[2], 0x23);
    assert_eq!(s.nvram[3], 3);
    assert_eq!(s.nvram[4], 0x17);
    assert_eq!(s.nvram[5], 0x11);
    assert_eq!(s.nvram[6], 0x25);
    assert_eq!(s.nvram[7], 0);
    assert_eq!(s.nvram[9], 0);
    assert_eq!(s.offset, 0);
    assert_eq!(s.ptr, 0);
}

#[test]
fn capture_keeps_12_hour_mode() {
    let mut s = DS1338Inner::new();
    s.nvram[2] = 0x40;
    let mut now = wallclock();
    now.hour = 0;
    s.capture_current_time(&now);
    // Midnight displays as 12 AM.
    assert_eq!(s.nvram[2], 0x52);
    now.hour = 12;
    s.capture_current_time(&now);
    // Noon displays as 12 PM.
    assert_eq!(s.nvram[2], 0x72);
    now.hour = 15;
    s.capture_current_time(&now);
    assert_eq!(s.nvram[2], 0x63);
}

#[test]
fn hours_12_encode_decode_is_a_bijection() {
    for hour in 0u8..24 {
        let byte = encode_hours_byte(0x40, hour);
        assert_eq!(decode_hour(byte), hour as i32);
        if hour < 12 {
            assert_eq!(byte & 0x20, 0, "hour {hour} must read AM");
        } else {
            assert_eq!(byte & 0x20, 0x20, "hour {hour} must read PM");
        }
    }
    assert_eq!(encode_hours_byte(0x40, 0), 0x52);
    assert_eq!(encode_hours_byte(0x40, 12), 0x72);
}

#[test]
fn hours_24_encode_decode_round_trips() {
    for hour in 0u8..24 {
        let byte = encode_hours_byte(0, hour);
        assert_eq!(byte, to_bcd(hour));
        assert_eq!(decode_hour(byte), hour as i32);
    }
}

#[test]
fn pointer_full_pass_returns_and_wraps_once() {
    for start in [0i32, 5, 40, 63] {
        let mut s = DS1338Inner::new();
        let now = wallclock();
        s.nvram[0] = 0xAA;
        s.ptr = start;
        let mut wraps = 0;
        for _ in 0..64 {
            s.inc_regptr(&now);
            if s.ptr == 0 {
                wraps += 1;
            }
        }
        assert_eq!(s.ptr, start);
        assert_eq!(wraps, 1);
        // The one wrap re-latched the clock over the stale seconds byte.
        assert_eq!(s.nvram[0], 0x30);
    }
}

#[test]
fn time_write_of_captured_byte_reproduces_the_breakdown() {
    let now = wallclock();
    for addr in [0i32, 1, 2, 4, 5, 6] {
        let mut s = DS1338Inner::new();
        s.capture_current_time(&now);
        s.ptr = addr;
        let t = s.write_time_register(s.nvram[addr as usize], &now);
        assert_eq!(t, now, "address {addr} did not round-trip");
        // An unchanged breakdown means the host's time source computes
        // the same offset again, so a further capture repeats the bytes.
        let before = s.nvram;
        s.capture_current_time(&now);
        assert_eq!(s.nvram, before);
    }
}

#[test]
fn weekday_write_of_captured_byte_keeps_the_offset() {
    let now = wallclock();
    let mut s = DS1338Inner::new();
    s.wday_offset = 4;
    s.capture_current_time(&now);
    assert_eq!(s.nvram[3], (2 + 4) % 7 + 1);
    s.ptr = 3;
    let t = s.write_time_register(s.nvram[3], &now);
    assert_eq!(t, now);
    assert_eq!(s.wday_offset, 4);
}

#[test]
fn control_write_masks_and_latches_oscillator_fail() {
    let mut s = DS1338Inner::new();
    s.ptr = 7;
    s.write_control_register(0xFF);
    // All undefined bits forced low, the fail latch newly set.
    assert_eq!(s.nvram[7], 0xB3);
    s.write_control_register(0x00);
    // Everything cleared but the latch, which an ordinary write cannot clear.
    assert_eq!(s.nvram[7], 0x20);
    s.write_control_register(0x93);
    assert_eq!(s.nvram[7], 0xB3);
}

#[test]
fn weekday_scenario_reproduces_the_written_weekday() {
    // Start-send, pointer byte 0x03, then weekday 5 while the wall
    // clock says weekday index 2.
    let mut d = DS1338State::new();
    let mut now = wallclock();
    now.wday = 2;
    let r = d.event(I2CEvent::StartSend, &now);
    assert_eq!(r, I2CEvent::StartRecv);
    let (ack, pending) = d.send(0x03, &now);
    assert_eq!(ack, I2CResult::Ack);
    assert!(pending.is_none());
    assert_eq!(d.inner.ptr, 3);
    let (ack, pending) = d.send(5, &now);
    assert_eq!(ack, I2CResult::Ack);
    // The breakdown itself is untouched by a weekday write; the host
    // recomputes the offset for the very same instant.
    assert_eq!(pending, Some(now));
    d.inner.set_offset(0);
    d.inner.capture_current_time(&now);
    assert_eq!(d.inner.nvram[3], 5);
}

#[test]
fn reset_clears_pointer_storage_and_phase() {
    let mut d = DS1338State::new();
    d.inner.ptr = 40;
    d.inner.nvram[40] = 0xAB;
    d.inner.addr_byte = true;
    d.inner.offset = 12345;
    d.inner.wday_offset = 3;
    d.reset_hold();
    assert_eq!(d.inner.ptr, 0);
    assert_eq!(d.inner.nvram[40], 0x00);
    assert!(!d.inner.addr_byte);
    assert_eq!(d.inner.offset, 0);
    assert_eq!(d.inner.wday_offset, 0);
    assert!(d.inner.nvram.iter().all(|b| *b == 0));
}

#[test]
fn nvram_byte_scenario_reads_back() {
    // Start-send, pointer byte 0x09, data byte 0x7F, then read it back.
    let mut d = DS1338State::new();
    let now = wallclock();
    d.event(I2CEvent::StartSend, &now);
    let (ack, pending) = d.send(0x09, &now);
    assert_eq!(ack, I2CResult::Ack);
    assert!(pending.is_none());
    let (ack, pending) = d.send(0x7F, &now);
    assert_eq!(ack, I2CResult::Ack);
    assert!(pending.is_none());
    assert_eq!(d.inner.ptr, 10);
    d.event(I2CEvent::StartSend, &now);
    d.send(0x09, &now);
    let byte = d.recv(&now);
    assert_eq!(byte, 0x7F);
    assert_eq!(d.inner.ptr, 10);
}

#[test]
fn recv_reads_and_advances() {
    let mut d = DS1338State::new();
    let now = wallclock();
    d.inner.nvram[8] = 0x5A;
    d.inner.nvram[9] = 0xC3;
    d.inner.ptr = 8;
    assert_eq!(d.recv(&now), 0x5A);
    assert_eq!(d.recv(&now), 0xC3);
    assert_eq!(d.inner.ptr, 10);
}

#[test]
fn start_recv_latches_a_fresh_snapshot() {
    let mut d = DS1338State::new();
    let now = wallclock();
    d.inner.nvram[0] = 0xAA;
    let r = d.event(I2CEvent::StartRecv, &now);
    assert_eq!(r, I2CEvent::StartRecv);
    assert_eq!(d.inner.nvram[0], 0x30);
    assert!(!d.inner.addr_byte);
}

#[test]
fn other_events_change_nothing() {
    let mut d = DS1338State::new();
    let now = wallclock();
    d.inner.ptr = 11;
    d.inner.nvram[11] = 0x44;
    let r = d.event(I2CEvent::Finish, &now);
    assert_eq!(r, I2CEvent::StartRecv);
    assert_eq!(d.inner.ptr, 11);
    assert_eq!(d.inner.nvram[11], 0x44);
    d.event(I2CEvent::Nack, &now);
    assert_eq!(d.inner.ptr, 11);
}

#[test]
fn time_write_decodes_each_field() {
    let now = wallclock();
    let mut s = DS1338Inner::new();
    s.ptr = 0;
    assert_eq!(s.write_time_register(0x59, &now).sec, 59);
    s.ptr = 1;
    assert_eq!(s.write_time_register(0x08, &now).min, 8);
    s.ptr = 2;
    assert_eq!(s.write_time_register(0x23, &now).hour, 23);
    s.ptr = 2;
    // 7 PM in 12-hour form.
    assert_eq!(s.write_time_register(0x40 | 0x20 | 0x07, &now).hour, 19);
    s.ptr = 4;
    assert_eq!(s.write_time_register(0x31, &now).mday, 31);
    s.ptr = 5;
    assert_eq!(s.write_time_register(0x12, &now).mon, 11);
    s.ptr = 6;
    assert_eq!(s.write_time_register(0x99, &now).year, 199);
    // None of these writes touches the stored bytes.
    assert!(s.nvram.iter().all(|b| *b == 0));
}

#[test]
fn addressing_byte_sets_pointer_modulo_64() {
    let mut d = DS1338State::new();
    let now = wallclock();
    d.event(I2CEvent::StartSend, &now);
    assert!(d.inner.addr_byte);
    let (ack, _) = d.send(0x7F, &now);
    assert_eq!(ack, I2CResult::Ack);
    assert!(!d.inner.addr_byte);
    assert_eq!(d.inner.ptr, 0x3F);
}

#[test]
fn nvram_write_at_63_wraps_and_latches() {
    let mut d = DS1338State::new();
    let now = wallclock();
    d.event(I2CEvent::StartSend, &now);
    d.send(63, &now);
    let (ack, pending) = d.send(0xEE, &now);
    assert_eq!(ack, I2CResult::Ack);
    assert!(pending.is_none());
    assert_eq!(d.inner.nvram[63], 0xEE);
    assert_eq!(d.inner.ptr, 0);
    // The wrap re-latched the clock into the time registers.
    assert_eq!(d.inner.nvram[0], 0x30);
    assert_eq!(d.inner.nvram[6], 0x25);
}

#[test]
fn snapshot_round_trips_current_schema() {
    let mut s = DS1338Inner::new();
    s.offset = -98765;
    s.wday_offset = 5;
    s.nvram[13] = 0x77;
    s.ptr = 21;
    s.addr_byte = true;
    let rec = s.save();
    let restored = DS1338Inner::load(&rec).expect("a saved record restores");
    assert_eq!(restored.offset, -98765);
    assert_eq!(restored.wday_offset, 5);
    assert_eq!(restored.nvram[13], 0x77);
    assert_eq!(restored.ptr, 21);
    assert!(restored.addr_byte);
}

#[test]
fn snapshot_old_schema_defaults_weekday_offset() {
    let mut nvram = [0u8; 64];
    nvram[8] = 0x11;
    let rec = Snapshot::V1 { offset: 42, nvram, ptr: 7, addr_byte: false };
    let restored = DS1338Inner::load(&rec).expect("an old record restores");
    assert_eq!(restored.offset, 42);
    assert_eq!(restored.wday_offset, 0);
    assert_eq!(restored.nvram[8], 0x11);
    assert_eq!(restored.ptr, 7);
    assert!(!restored.addr_byte);
}

#[test]
fn snapshot_with_bad_pointer_is_refused() {
    let rec = Snapshot::V2 {
        offset: 0,
        wday_offset: 0,
        nvram: [0u8; 64],
        ptr: 64,
        addr_byte: false,
    };
    assert!(DS1338Inner::load(&rec).is_none());
    let rec = Snapshot::V1 { offset: 0, nvram: [0u8; 64], ptr: -1, addr_byte: false };
    assert!(DS1338Inner::load(&rec).is_none());
}

#[test]
fn default_matches_new() {
    let a = DS1338Inner::default();
    assert_eq!(a.offset, 0);
    assert_eq!(a.wday_offset, 0);
    assert_eq!(a.ptr, 0);
    assert!(!a.addr_byte);
    assert!(a.nvram.iter().all(|b| *b == 0));
    let d = DS1338State::default();
    assert_eq!(d.inner.ptr, 0);
}

#[test]
fn time_write_pending_breakdown_drives_offset() {
    // A seconds write hands back the mutated breakdown; the host stores
    // whatever offset its time source derives from it.
    let mut d = DS1338State::new();
    let now = wallclock();
    d.event(I2CEvent::StartSend, &now);
    d.send(0x00, &now);
    let (_, pending) = d.send(0x59, &now);
    let t = pending.expect("a time write returns the breakdown");
    assert_eq!(t.sec, 59);
    assert_eq!(t.min, now.min);
    d.inner.set_offset(29);
    assert_eq!(d.inner.offset, 29);
    assert_eq!(d.inner.ptr, 1);
}

//! The persisted form of the register file.
//!
//! The host's persistence collaborator stores the device as a versioned
//! record. Two schema versions exist: the older one predates the weekday
//! offset, which loads as zero; the current one carries the full field
//! set. A record whose pointer lies outside the address space cannot be
//! mapped onto a well-formed register file and is refused.

use vstd::prelude::*;
use crate::registers::{DS1338Inner, NVRAM_SIZE};

verus! {

/// A versioned persisted record of the register file.
#[derive(Clone, Copy, Debug, PartialEq, Eq)]
pub enum Snapshot {
    /// The older schema, before the weekday offset was persisted.
    V1 {
        /// Seconds added to the wall clock to get the chip's time.
        offset: i64,
        /// The 64-byte address space.
        nvram: [u8; NVRAM_SIZE],
        /// Register pointer at save time.
        ptr: i32,
        /// Whether the bus was in the addressing phase at save time.
        addr_byte: bool,
    },
    /// The current schema: the full field set.
    V2 {
        /// Seconds added to the wall clock to get the chip's time.
        offset: i64,
        /// Added (mod 7) to the wall-clock weekday before display.
        wday_offset: u8,
        /// The 64-byte address space.
        nvram: [u8; NVRAM_SIZE],
        /// Register pointer at save time.
        ptr: i32,
        /// Whether the bus was in the addressing phase at save time.
        addr_byte: bool,
    },
}

/// The record a save produces: always the current schema, carrying every
/// field of the register file.
pub open spec fn spec_save(inner: DS1338Inner) -> Snapshot {
    Snapshot::V2 {
        offset: inner.offset,
        wday_offset: inner.wday_offset,
        nvram: inner.nvram,
        ptr: inner.ptr,
        addr_byte: inner.addr_byte,
    }
}

/// The register file a record restores to: the fields carried over
/// wholesale, a missing weekday offset defaulting to zero, and `None`
/// exactly when the recorded pointer lies outside the address space.
pub open spec fn spec_load(s: Snapshot) -> Option<DS1338Inner> {
    match s {
        Snapshot::V1 { offset, nvram, ptr, addr_byte } => if 0 <= ptr < 64 {
            Some(DS1338Inner { offset, wday_offset: 0, nvram, ptr, addr_byte })
        } else {
            None
        },
        Snapshot::V2 { offset, wday_offset, nvram, ptr, addr_byte } => if 0 <= ptr < 64 {
            Some(DS1338Inner { offset, wday_offset, nvram, ptr, addr_byte })
        } else {
            None
        },
    }
}

impl DS1338Inner {
    /// Snapshots the register file as a current-schema record.
    pub fn save(&self) -> (s: Snapshot)
        ensures
            s == spec_save(*self),
    {
        Snapshot::V2 {
            offset: self.offset,
            wday_offset: self.wday_offset,
            nvram: self.nvram,
            ptr: self.ptr,
            addr_byte: self.addr_byte,
        }
    }

    /// Restores a register file from a persisted record of either
    /// schema; refuses a record whose pointer is out of range, since no
    /// well-formed register file matches it.
    pub fn load(s: &Snapshot) -> (r: Option<DS1338Inner>)
        ensures
            r == spec_load(*s),
            r is Some ==> r->Some_0.wf(),
    {
        match *s {
            Snapshot::V1 { offset, nvram, ptr, addr_byte } => {
                if 0 <= ptr && ptr < 64 {
                    Some(DS1338Inner { offset, wday_offset: 0, nvram, ptr, addr_byte })
                } else {
                    None
                }
            },
            Snapshot::V2 { offset, wday_offset, nvram, ptr, addr_byte } => {
                if 0 <= ptr && ptr < 64 {
                    Some(DS1338Inner { offset, wday_offset, nvram, ptr, addr_byte })
                } else {
                    None
                }
            },
        }
    }
}

/// Law: saving a well-formed register file and loading the record
/// restores the file itself, field for field.
pub proof fn lemma_snapshot_round_trip(inner: DS1338Inner)
    requires
        inner.wf(),
    ensures
        spec_load(spec_save(inner)) == Some(inner),
{
}

} // verus!

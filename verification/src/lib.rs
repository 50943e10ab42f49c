//! Model of a battery-backed real-time-clock chip with 64 bytes of
//! addressable storage, driven over a two-wire addressable bus.
//!
//! The register file ([`DS1338Inner`]) holds seven time/calendar registers,
//! one control byte and 56 bytes of general-purpose nonvolatile memory,
//! together with the auto-incrementing register pointer. The bus adapter
//! ([`DS1338State`]) turns byte-level bus events into register-file
//! operations. Wall-clock readings come from a host collaborator and are
//! passed in as plain calendar breakdowns ([`Tm`]); when a time register is
//! written the adapter hands the mutated breakdown back so that the host can
//! turn it into a fresh clock offset.

pub mod bcd;
pub mod time;
pub mod codec;
pub mod registers;
pub mod bus;
pub mod snapshot;

pub use bcd::{to_bcd, from_bcd};
pub use time::Tm;
pub use registers::DS1338Inner;
pub use bus::{DS1338State, I2CEvent, I2CResult};
pub use snapshot::Snapshot;

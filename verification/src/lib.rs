//! A small family of independent virtual storage devices.
//!
//! Each device is a flat, contiguous, growable byte buffer addressed by
//! absolute offset. Sessions opened against a device read and write it
//! through a fixed policy: truncation when opened write-only, short reads at
//! end of data, zero-filled growth on writes past the current length. A
//! device table builds the whole family at start-up, one device per
//! configured index, each under a distinct name.

pub mod device;
pub mod errors;
pub mod laws;
pub mod names;
pub mod session;
pub mod store;
pub mod table;

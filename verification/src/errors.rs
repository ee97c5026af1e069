//! The failures a device operation or start-up can report.

use vstd::prelude::*;

verus! {

/// Every failure is local and synchronous: it is returned to the immediate
/// caller, never retried or swallowed. Start-up failures are fatal to the
/// whole family; per-operation failures leave the device usable.
#[derive(Clone, Copy, Debug, PartialEq, Eq, Structural)]
pub enum VdevError {
    /// The requested offset is not representable as an unsigned byte
    /// position on this platform; surfaced before the store is touched.
    InvalidOffset,
    /// Offset plus length exceeds the representable address range; the
    /// write is not applied.
    Overflow,
    /// Buffer growth could not obtain memory; the store keeps its prior
    /// length.
    Allocation,
    /// The configured device count cannot be represented as an index count
    /// on this platform; start-up aborts with no devices built.
    Configuration,
    /// A device name collision or registration refusal; aborts the whole
    /// table construction.
    Registration,
}

} // verus!

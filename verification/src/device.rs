//! One device: a stable numeric identity owning exactly one byte store.

use vstd::prelude::*;

use crate::store::ByteStore;

verus! {

/// Identifies one device. The number is assigned at creation, 0-based, and
/// never changes; the store is created empty alongside it. Every open
/// session against the device operates on this one handle, and the handle
/// outlives any individual session.
pub struct DeviceHandle {
    /// The device's stable, 0-based index.
    pub number: usize,
    /// The byte buffer backing this device.
    pub store: ByteStore,
}

impl DeviceHandle {
    /// A fresh device starts with an empty store.
    pub fn new(number: usize) -> (handle: DeviceHandle)
        ensures
            handle.number == number,
            handle.store@ == Seq::<u8>::empty(),
    {
        DeviceHandle { number, store: ByteStore::new() }
    }
}

} // verus!

//! The open/read/write policy applied to a device on behalf of a file
//! session.
//!
//! Opening never fails; opening write-only truncates the device first.
//! Reads and writes validate the caller's offset as an unsigned byte
//! position and then delegate to the device's store, surfacing its
//! failures unchanged. A session carries no buffered state: every call
//! observes the live store.

use vstd::prelude::*;

use crate::device::DeviceHandle;
use crate::errors::VdevError;
use crate::store::read_spec;
use crate::store::write_spec;

verus! {

/// The access requested when the session was opened.
#[derive(Clone, Copy, Debug, PartialEq, Eq, Structural)]
pub enum AccessMode {
    /// Reads only.
    ReadOnly,
    /// Writes only; opening in this mode truncates the device.
    WriteOnly,
    /// Both reads and writes.
    ReadWrite,
}

/// The per-open-file context: which device it was opened against and the
/// access mode requested at open time. It is created on open, used for
/// zero or more reads and writes, and simply discarded when the caller's
/// file context goes away.
#[derive(Clone, Copy, Debug, PartialEq, Eq, Structural)]
pub struct Session {
    /// The number of the device the session was opened against.
    pub device: usize,
    /// The access requested at open time.
    pub mode: AccessMode,
}

/// Open a session against a device. Opening always succeeds; when the
/// requested mode is write-only the device's content is cleared first
/// (truncate-on-open), and otherwise it is left exactly as it was.
pub fn open(handle: &mut DeviceHandle, mode: AccessMode) -> (session: Session)
    ensures
        final(handle).number == old(handle).number,
        mode == AccessMode::WriteOnly ==> final(handle).store@ == Seq::<u8>::empty(),
        mode != AccessMode::WriteOnly ==> final(handle).store@ == old(handle).store@,
        session.device == old(handle).number,
        session.mode == mode,
{
    if mode == AccessMode::WriteOnly {
        handle.store.clear();
    }
    Session { device: handle.number, mode }
}

/// Read at most `max_len` bytes at `offset` through a session. An offset
/// that is not representable as a byte position on this platform fails
/// with `InvalidOffset` before reaching the store; any representable
/// offset succeeds, yielding a short or empty read at end of data.
pub fn read(session: &Session, handle: &DeviceHandle, offset: u64, max_len: usize) -> (result:
    Result<Vec<u8>, VdevError>)
    requires
        session.device == handle.number,
    ensures
        result is Ok <==> offset <= usize::MAX,
        result is Ok ==> result->Ok_0@ == read_spec(handle.store@, offset as int, max_len as int),
        result is Err ==> result->Err_0 == VdevError::InvalidOffset,
{
    if offset > usize::MAX as u64 {
        return Err(VdevError::InvalidOffset);
    }
    Ok(handle.store.read(offset as usize, max_len))
}

/// Write `data` at `offset` through a session. An offset that is not
/// representable fails with `InvalidOffset`; a representable offset whose
/// end of range exceeds the address space fails with `Overflow`; either
/// failure leaves the device untouched. Otherwise the full request is
/// applied and its length returned.
pub fn write(session: &Session, handle: &mut DeviceHandle, offset: u64, data: &[u8]) -> (result:
    Result<usize, VdevError>)
    requires
        session.device == old(handle).number,
    ensures
        final(handle).number == old(handle).number,
        result is Ok <==> offset + data@.len() <= usize::MAX,
        result is Ok ==> result->Ok_0 == data@.len()
            && final(handle).store@ == write_spec(old(handle).store@, offset as int, data@),
        result is Err ==> final(handle).store@ == old(handle).store@
            && (result->Err_0 == VdevError::InvalidOffset <==> offset > usize::MAX)
            && (result->Err_0 == VdevError::Overflow
                <==> offset <= usize::MAX && offset + data@.len() > usize::MAX),
{
    if offset > usize::MAX as u64 {
        return Err(VdevError::InvalidOffset);
    }
    match handle.store.write(offset as usize, data) {
        Ok(n) => Ok(n),
        Err(e) => Err(e),
    }
}

} // verus!

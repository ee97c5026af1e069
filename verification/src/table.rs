//! The process-wide family of devices, built once at start-up and torn
//! down together.
//!
//! The table is consulted only at start-up and shutdown; steady-state
//! reads and writes go to the device a session was opened against. The
//! dispatch methods here route a session's calls to its device and say,
//! beyond the per-device contract, that no other device is touched:
//! devices are fully independent.

use vstd::prelude::*;

use crate::device::DeviceHandle;
use crate::errors::VdevError;
use crate::names::device_name;
use crate::names::device_name_spec;
use crate::session::AccessMode;
use crate::session::Session;
use crate::store::read_spec;
use crate::store::write_spec;

verus! {

/// The ordered collection of devices, one per configured index. Its size
/// is fixed at start-up: devices are never added or removed afterward,
/// and each carries the stable name `vdev<index>`.
pub struct DeviceTable {
    devices: Vec<DeviceHandle>,
}

impl DeviceTable {
    /// How many devices the table holds.
    pub closed spec fn count(self) -> nat {
        self.devices@.len()
    }

    /// The bytes currently stored by the device at `index`.
    pub closed spec fn contents_of(self, index: int) -> Seq<u8> {
        self.devices@[index].store@
    }

    /// Each device sits at the slot matching its own stable number.
    pub closed spec fn wf(self) -> bool {
        forall|i: int|
            0 <= i < self.devices@.len() ==> (#[trigger] self.devices@[i]).number == i
    }

    /// Build the whole family: one empty device per index in `0..count`.
    /// Fails with `Configuration` when the count cannot be represented as
    /// an index count on this platform, building nothing at all.
    pub fn initialize(count: u64) -> (result: Result<DeviceTable, VdevError>)
        ensures
            result is Ok <==> count <= usize::MAX,
            result is Ok ==> result->Ok_0.wf(),
            result is Ok ==> result->Ok_0.count() == count,
            result is Ok ==> forall|i: int|
                0 <= i < count ==> result->Ok_0.contents_of(i) == Seq::<u8>::empty(),
            result is Err ==> result->Err_0 == VdevError::Configuration,
    {
        if count > usize::MAX as u64 {
            return Err(VdevError::Configuration);
        }
        let wanted = count as usize;
        let mut devices: Vec<DeviceHandle> = Vec::new();
        let mut i: usize = 0;
        while i < wanted
            invariant
                i <= wanted,
                devices@.len() == i,
                forall|j: int| 0 <= j < i ==> (#[trigger] devices@[j]).number == j,
                forall|j: int| 0 <= j < i ==> (#[trigger] devices@[j]).store@ == Seq::<u8>::empty(),
            decreases wanted - i,
        {
            devices.push(DeviceHandle::new(i));
            i += 1;
        }
        Ok(DeviceTable { devices })
    }

    /// How many devices the table holds.
    pub fn device_count(&self) -> (n: usize)
        ensures
            n == self.count(),
    {
        self.devices.len()
    }

    /// The name the device at `index` is registered under.
    pub fn name_of(&self, index: usize) -> (name: String)
        requires
            index < self.count(),
        ensures
            name@ == device_name_spec(index as nat),
    {
        device_name(index as u64)
    }

    /// Open a session against the device at `index`. Opening write-only
    /// truncates that device; every other device is untouched either way.
    pub fn open_at(&mut self, index: usize, mode: AccessMode) -> (session: Session)
        requires
            old(self).wf(),
            index < old(self).count(),
        ensures
            final(self).wf(),
            final(self).count() == old(self).count(),
            forall|j: int|
                0 <= j < old(self).count() && j != index ==> final(self).contents_of(j) == old(
                    self,
                ).contents_of(j),
            mode == AccessMode::WriteOnly ==> final(self).contents_of(index as int) == Seq::<
                u8,
            >::empty(),
            mode != AccessMode::WriteOnly ==> final(self).contents_of(index as int) == old(
                self,
            ).contents_of(index as int),
            session.device == index,
            session.mode == mode,
    {
        let ghost base = self.devices@;
        let mut handle = self.devices.remove(index);
        let session = crate::session::open(&mut handle, mode);
        self.devices.insert(index, handle);
        proof {
            base.remove_ensures(index as int);
            base.remove(index as int).insert_ensures(index as int, handle);
            assert(self.devices@ =~= base.update(index as int, handle));
        }
        session
    }

    /// Read through a session: at most `max_len` bytes at `offset` from
    /// the session's device, short or empty at end of data. Only an
    /// unrepresentable offset fails, and no device is changed.
    pub fn read_at(&self, session: &Session, offset: u64, max_len: usize) -> (result: Result<
        Vec<u8>,
        VdevError,
    >)
        requires
            self.wf(),
            session.device < self.count(),
        ensures
            result is Ok <==> offset <= usize::MAX,
            result is Ok ==> result->Ok_0@ == read_spec(
                self.contents_of(session.device as int),
                offset as int,
                max_len as int,
            ),
            result is Err ==> result->Err_0 == VdevError::InvalidOffset,
    {
        crate::session::read(session, &self.devices[session.device], offset, max_len)
    }

    /// Write through a session: `data` at `offset` on the session's
    /// device, applied in full or not at all. Every other device is
    /// untouched: writing one device never affects a read of another.
    pub fn write_at(&mut self, session: &Session, offset: u64, data: &[u8]) -> (result: Result<
        usize,
        VdevError,
    >)
        requires
            old(self).wf(),
            session.device < old(self).count(),
        ensures
            final(self).wf(),
            final(self).count() == old(self).count(),
            forall|j: int|
                0 <= j < old(self).count() && j != session.device ==> final(self).contents_of(j)
                    == old(self).contents_of(j),
            result is Ok <==> offset + data@.len() <= usize::MAX,
            result is Ok ==> result->Ok_0 == data@.len(),
            result is Ok ==> final(self).contents_of(session.device as int) == write_spec(
                old(self).contents_of(session.device as int),
                offset as int,
                data@,
            ),
            result is Err ==> final(self).contents_of(session.device as int) == old(
                self,
            ).contents_of(session.device as int),
            result is Err ==> (result->Err_0 == VdevError::InvalidOffset <==> offset
                > usize::MAX),
            result is Err ==> (result->Err_0 == VdevError::Overflow <==> offset <= usize::MAX
                && offset + data@.len() > usize::MAX),
    {
        let ghost base = self.devices@;
        let index = session.device;
        let mut handle = self.devices.remove(index);
        let result = crate::session::write(session, &mut handle, offset, data);
        self.devices.insert(index, handle);
        proof {
            base.remove_ensures(index as int);
            base.remove(index as int).insert_ensures(index as int, handle);
            assert(self.devices@ =~= base.update(index as int, handle));
        }
        result
    }

    /// Release the whole family at shutdown. Consuming the table makes
    /// teardown single-fire: no operation can be issued against any of
    /// its devices afterward.
    pub fn teardown(self) {
        let _ = self;
    }
}

} // verus!

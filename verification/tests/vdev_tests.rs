use vdev::device::DeviceHandle;
use vdev::errors::VdevError;
use vdev::names::decimal_string;
use vdev::names::device_name;
use vdev::session::open;
use vdev::session::read;
use vdev::session::AccessMode;
use vdev::store::ByteStore;
use vdev::table::DeviceTable;

#[test]
fn fresh_store_is_empty() {
    let store = ByteStore::new();
    assert_eq!(store.length(), 0);
    assert_eq!(store.read(0, 16), Vec::<u8>::new());
}

#[test]
fn write_read_round_trip() {
    let mut store = ByteStore::new();
    let written = store.write(0, b"abcdef").unwrap();
    assert_eq!(written, 6);
    assert_eq!(store.read(0, 6), b"abcdef".to_vec());
}

#[test]
fn round_trip_at_nonzero_offset() {
    let mut store = ByteStore::new();
    store.write(0, b"0123456789").unwrap();
    let written = store.write(3, b"XYZ").unwrap();
    assert_eq!(written, 3);
    assert_eq!(store.read(3, 3), b"XYZ".to_vec());
    assert_eq!(store.read(0, 10), b"012XYZ6789".to_vec());
}

#[test]
fn short_read_at_end_of_data() {
    let mut store = ByteStore::new();
    store.write(0, b"abc").unwrap();
    assert_eq!(store.read(1, 100), b"bc".to_vec());
}

#[test]
fn read_at_or_past_stored_length_is_empty_not_an_error() {
    let mut store = ByteStore::new();
    store.write(0, b"abc").unwrap();
    assert_eq!(store.read(3, 10), Vec::<u8>::new());
    assert_eq!(store.read(1000, 10), Vec::<u8>::new());
}

#[test]
fn sparse_write_zero_fills_the_gap() {
    let mut store = ByteStore::new();
    store.write(0, b"ab").unwrap();
    store.write(5, b"cd").unwrap();
    assert_eq!(store.length(), 7);
    assert_eq!(store.read(2, 3), vec![0u8, 0u8, 0u8]);
    assert_eq!(store.read(0, 7), vec![b'a', b'b', 0, 0, 0, b'c', b'd']);
}

#[test]
fn write_never_shrinks() {
    let mut store = ByteStore::new();
    store.write(0, b"abcdef").unwrap();
    store.write(0, b"Z").unwrap();
    assert_eq!(store.length(), 6);
    assert_eq!(store.read(0, 6), b"Zbcdef".to_vec());
}

#[test]
fn zero_length_write_past_end_still_grows() {
    let mut store = ByteStore::new();
    let written = store.write(4, b"").unwrap();
    assert_eq!(written, 0);
    assert_eq!(store.length(), 4);
    assert_eq!(store.read(0, 4), vec![0u8; 4]);
}

#[test]
fn overflowing_write_fails_and_changes_nothing() {
    let mut store = ByteStore::new();
    store.write(0, b"keep").unwrap();
    let result = store.write(usize::MAX, b"x");
    assert_eq!(result, Err(VdevError::Overflow));
    assert_eq!(store.length(), 4);
    assert_eq!(store.read(0, 4), b"keep".to_vec());
}

#[test]
fn clear_resets_length_to_zero() {
    let mut store = ByteStore::new();
    store.write(0, b"abc").unwrap();
    store.clear();
    assert_eq!(store.length(), 0);
    assert_eq!(store.read(0, 3), Vec::<u8>::new());
}

#[test]
fn open_write_only_truncates() {
    let mut handle = DeviceHandle::new(0);
    handle.store.write(0, b"old content").unwrap();
    let session = open(&mut handle, AccessMode::WriteOnly);
    assert_eq!(session.device, 0);
    assert_eq!(session.mode, AccessMode::WriteOnly);
    let bytes = read(&session, &handle, 0, 32).unwrap();
    assert_eq!(bytes, Vec::<u8>::new());
}

#[test]
fn open_read_only_and_read_write_keep_content() {
    let mut handle = DeviceHandle::new(0);
    handle.store.write(0, b"still here").unwrap();
    let session = open(&mut handle, AccessMode::ReadOnly);
    assert_eq!(read(&session, &handle, 0, 32).unwrap(), b"still here".to_vec());
    let session = open(&mut handle, AccessMode::ReadWrite);
    assert_eq!(read(&session, &handle, 0, 32).unwrap(), b"still here".to_vec());
}

#[test]
fn session_write_surfaces_overflow_unchanged() {
    let mut handle = DeviceHandle::new(0);
    let session = open(&mut handle, AccessMode::ReadWrite);
    let result = vdev::session::write(&session, &mut handle, u64::MAX, b"x");
    assert_eq!(result, Err(VdevError::Overflow));
    assert_eq!(read(&session, &handle, 0, 8).unwrap(), Vec::<u8>::new());
}

#[test]
fn session_write_then_read_round_trip() {
    let mut handle = DeviceHandle::new(3);
    let session = open(&mut handle, AccessMode::ReadWrite);
    assert_eq!(session.device, 3);
    let written = vdev::session::write(&session, &mut handle, 2, b"hi").unwrap();
    assert_eq!(written, 2);
    assert_eq!(read(&session, &handle, 2, 2).unwrap(), b"hi".to_vec());
    assert_eq!(read(&session, &handle, 0, 2).unwrap(), vec![0u8, 0u8]);
}

#[test]
fn disjoint_writes_both_read_back_intact() {
    let mut store = ByteStore::new();
    store.write(0, b"aaaa").unwrap();
    store.write(8, b"bbbb").unwrap();
    assert_eq!(store.read(0, 4), b"aaaa".to_vec());
    assert_eq!(store.read(8, 4), b"bbbb".to_vec());
    let mut other_order = ByteStore::new();
    other_order.write(8, b"bbbb").unwrap();
    other_order.write(0, b"aaaa").unwrap();
    assert_eq!(other_order.read(0, 4), b"aaaa".to_vec());
    assert_eq!(other_order.read(8, 4), b"bbbb".to_vec());
}

#[test]
fn devices_are_independent() {
    let mut table = DeviceTable::initialize(2).unwrap();
    let session_b = table.open_at(1, AccessMode::ReadWrite);
    table.write_at(&session_b, 0, b"device one").unwrap();
    let session_a = table.open_at(0, AccessMode::ReadWrite);
    table.write_at(&session_a, 0, b"device zero").unwrap();
    assert_eq!(table.read_at(&session_b, 0, 32).unwrap(), b"device one".to_vec());
    let session_a2 = table.open_at(0, AccessMode::WriteOnly);
    assert_eq!(table.read_at(&session_a2, 0, 32).unwrap(), Vec::<u8>::new());
    assert_eq!(table.read_at(&session_b, 0, 32).unwrap(), b"device one".to_vec());
}

#[test]
fn initialize_builds_one_empty_device_per_index() {
    let table = DeviceTable::initialize(3).unwrap();
    assert_eq!(table.device_count(), 3);
    for i in 0..3usize {
        assert_eq!(table.name_of(i), format!("vdev{}", i));
        let session = vdev::session::Session { device: i, mode: AccessMode::ReadOnly };
        assert_eq!(table.read_at(&session, 0, 8).unwrap(), Vec::<u8>::new());
    }
    table.teardown();
}

#[test]
fn initialize_zero_devices() {
    let table = DeviceTable::initialize(0).unwrap();
    assert_eq!(table.device_count(), 0);
    table.teardown();
}

#[test]
fn device_names_are_deterministic_and_distinct() {
    assert_eq!(device_name(0), "vdev0");
    assert_eq!(device_name(1), "vdev1");
    assert_eq!(device_name(7), "vdev7");
    assert_eq!(device_name(10), "vdev10");
    assert_eq!(device_name(409), "vdev409");
    assert_eq!(device_name(u64::MAX), format!("vdev{}", u64::MAX));
    let names: Vec<String> = (0..100u64).map(device_name).collect();
    for i in 0..names.len() {
        for j in 0..names.len() {
            if i != j {
                assert_ne!(names[i], names[j]);
            }
        }
    }
}

#[test]
fn decimal_rendering_matches_standard_formatting() {
    for n in [0u64, 1, 9, 10, 11, 99, 100, 101, 4096, 1234567890, u64::MAX] {
        assert_eq!(decimal_string(n), format!("{}", n));
    }
}

#[test]
fn end_to_end_scenario() {
    let mut table = DeviceTable::initialize(2).unwrap();
    assert_eq!(table.device_count(), 2);
    assert_eq!(table.name_of(0), "vdev0");
    assert_eq!(table.name_of(1), "vdev1");
    let session = table.open_at(0, AccessMode::WriteOnly);
    let written = table.write_at(&session, 0, b"hello").unwrap();
    assert_eq!(written, 5);
    assert_eq!(table.read_at(&session, 0, 10).unwrap(), b"hello".to_vec());
    assert_eq!(table.read_at(&session, 5, 10).unwrap(), Vec::<u8>::new());
    let reopened = table.open_at(0, AccessMode::WriteOnly);
    assert_eq!(table.read_at(&reopened, 0, 10).unwrap(), Vec::<u8>::new());
    table.teardown();
}

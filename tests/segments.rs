use shared_memory::ShmemError;
use shmemj::bridge::{
    create_segment, destroy_segment, open_segment, segment_is_owner, segment_os_id, segment_range,
    segment_size,
};
use shmemj::error::SharedMemoryError;
use shmemj::handle_table::HandleTable;
use shmemj::segment::{create_error, open_error, SharedSegment};

#[test]
fn open_errors_are_classified_by_os_code() {
    assert_eq!(open_error(&ShmemError::MapOpenFailed(2)), SharedMemoryError::NotFound);
    assert_eq!(open_error(&ShmemError::MapOpenFailed(13)), SharedMemoryError::AccessDenied);
    assert_eq!(open_error(&ShmemError::MapOpenFailed(22)), SharedMemoryError::OpenFailed(22));
    assert_eq!(open_error(&ShmemError::UnknownOsError(5)), SharedMemoryError::OpenFailed(5));
    assert_eq!(open_error(&ShmemError::NoLinkOrOsId), SharedMemoryError::OpenFailed(0));
}

#[test]
fn create_errors_are_allocation_failures() {
    assert_eq!(create_error(&ShmemError::MapSizeZero), SharedMemoryError::AllocationFailed(0));
    assert_eq!(create_error(&ShmemError::MappingIdExists), SharedMemoryError::AllocationFailed(0));
    assert_eq!(create_error(&ShmemError::MapCreateFailed(28)), SharedMemoryError::AllocationFailed(28));
    assert_eq!(create_error(&ShmemError::UnknownOsError(12)), SharedMemoryError::AllocationFailed(12));
}

#[test]
fn created_segment_has_requested_size_and_is_owned() {
    let s = SharedSegment::create(4096).unwrap();
    assert_eq!(s.size(), 4096);
    assert!(s.is_owner());
    assert!(s.os_id().starts_with("/shmem_"));
}

#[test]
fn created_segment_sizes_are_kept() {
    for size in [1usize, 100, 8192, 65536] {
        let s = SharedSegment::create(size).unwrap();
        assert_eq!(s.size(), size);
    }
}

#[test]
fn zero_size_segment_is_refused() {
    assert!(matches!(SharedSegment::create(0), Err(SharedMemoryError::AllocationFailed(0))));
}

#[test]
fn opened_segment_shares_id_but_not_ownership() {
    let a = SharedSegment::create(4096).unwrap();
    let b = SharedSegment::open(4096, a.os_id()).unwrap();
    assert!(a.is_owner());
    assert!(!b.is_owner());
    assert_eq!(b.os_id(), a.os_id());
    assert_eq!(b.size(), 4096);
}

#[test]
fn empty_id_names_no_segment() {
    assert!(matches!(SharedSegment::open(4096, ""), Err(SharedMemoryError::NotFound)));
}

#[test]
fn unknown_id_is_not_found() {
    assert!(matches!(
        SharedSegment::open(4096, "/shmemj_no_such_segment_7f3a"),
        Err(SharedMemoryError::NotFound)
    ));
}

#[test]
fn owner_destroy_removes_the_segment() {
    let mut t: HandleTable<SharedSegment> = HandleTable::new();
    let h = create_segment(&mut t, 4096).unwrap();
    let id = segment_os_id(&t, h).unwrap().to_string();
    destroy_segment(&mut t, h);
    let mut fresh: HandleTable<SharedSegment> = HandleTable::new();
    assert_eq!(open_segment(&mut fresh, 4096, &id), Err(SharedMemoryError::NotFound));
}

#[test]
fn bridge_reports_segment_attributes() {
    let mut t: HandleTable<SharedSegment> = HandleTable::new();
    let h = create_segment(&mut t, 4096).unwrap();
    assert_eq!(segment_size(&t, h), Ok(4096));
    assert_eq!(segment_is_owner(&t, h), Ok(true));
    let id = segment_os_id(&t, h).unwrap().to_string();
    let mut other: HandleTable<SharedSegment> = HandleTable::new();
    let g = open_segment(&mut other, 4096, &id).unwrap();
    assert_eq!(segment_is_owner(&other, g), Ok(false));
    assert_eq!(segment_os_id(&other, g), Ok(id.as_str()));
    assert_eq!(segment_size(&other, g), Ok(4096));
}

#[test]
fn bridge_create_of_zero_bytes_fails() {
    let mut t: HandleTable<SharedSegment> = HandleTable::new();
    assert_eq!(create_segment(&mut t, 0), Err(SharedMemoryError::AllocationFailed(0)));
}

#[test]
fn destroy_is_idempotent_and_accessors_then_fail() {
    let mut t: HandleTable<SharedSegment> = HandleTable::new();
    let h = create_segment(&mut t, 4096).unwrap();
    destroy_segment(&mut t, h);
    destroy_segment(&mut t, h);
    destroy_segment(&mut t, 0);
    assert_eq!(segment_size(&t, h), Err(SharedMemoryError::InvalidHandle));
    assert_eq!(segment_is_owner(&t, h), Err(SharedMemoryError::InvalidHandle));
    assert_eq!(segment_os_id(&t, h), Err(SharedMemoryError::InvalidHandle));
    assert!(matches!(segment_range(&t, h, 0, 1), Err(SharedMemoryError::InvalidHandle)));
}

#[test]
fn zero_handle_is_invalid() {
    let t: HandleTable<SharedSegment> = HandleTable::new();
    assert_eq!(segment_size(&t, 0), Err(SharedMemoryError::InvalidHandle));
}

#[test]
fn byte_ranges_must_lie_inside_the_segment() {
    let mut t: HandleTable<SharedSegment> = HandleTable::new();
    let h = create_segment(&mut t, 4096).unwrap();
    let (s, o, l) = segment_range(&t, h, 0, 4096).unwrap();
    assert_eq!((s.size(), o, l), (4096, 0, 4096));
    let (_, o, l) = segment_range(&t, h, 4000, 96).unwrap();
    assert_eq!((o, l), (4000, 96));
    assert!(segment_range(&t, h, 4096, 0).is_ok());
    assert!(matches!(segment_range(&t, h, 4000, 97), Err(SharedMemoryError::OutOfBounds)));
    assert!(matches!(segment_range(&t, h, -1, 10), Err(SharedMemoryError::OutOfBounds)));
    assert!(matches!(segment_range(&t, h, 0, -1), Err(SharedMemoryError::OutOfBounds)));
    assert!(matches!(segment_range(&t, h, i64::MAX, i64::MAX), Err(SharedMemoryError::OutOfBounds)));
}

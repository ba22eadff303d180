//! The operations a host runtime performs on segments through their handles.
//!
//! Each segment lives in a `HandleTable` for as long as its handle is live.
//! Every operation resolves the handle first and reports `InvalidHandle` for 0
//! or for a destroyed handle; destroying is a no-op on such a handle.
use vstd::prelude::*;
use crate::error::SharedMemoryError;
use crate::handle_table::HandleTable;
use crate::segment::SharedSegment;

verus! {

/// `offset..offset + length` lies inside a region of `size` bytes.
pub open spec fn range_fits(offset: int, length: int, size: int) -> bool {
    0 <= offset && 0 <= length && offset + length <= size
}

/// Gives `created` a handle in `table`, or reports why it could not.
fn register(table: &mut HandleTable<SharedSegment>, created: Result<SharedSegment, SharedMemoryError>) -> (r: Result<u64, SharedMemoryError>)
    requires
        old(table).wf(),
    ensures
        final(table).wf(),
        match r {
            Ok(h) => {
                &&& created matches Ok(s) && final(table)@ == old(table)@.insert(h, s)
                &&& h != 0
                &&& !old(table).issued(h)
                &&& forall|g: u64| #[trigger] final(table).issued(g) == (old(table).issued(g) || g == h)
            },
            Err(e) => {
                &&& final(table)@ == old(table)@
                &&& forall|g: u64| #[trigger] final(table).issued(g) == old(table).issued(g)
                &&& match created {
                    Ok(_) => e == SharedMemoryError::TableFull && old(table).is_full(),
                    Err(c) => e == c,
                }
            },
        },
        created is Ok && !old(table).is_full() ==> r is Ok,
{
    match created {
        Ok(segment) => match table.insert(segment) {
            Some(h) => Ok(h),
            None => Err(SharedMemoryError::TableFull),
        },
        Err(e) => Err(e),
    }
}

/// Creates a segment of `size` bytes under a generated id and returns its handle.
pub fn create_segment(table: &mut HandleTable<SharedSegment>, size: usize) -> (r: Result<u64, SharedMemoryError>)
    requires
        old(table).wf(),
    ensures
        final(table).wf(),
        size == 0 ==> r == Err::<u64, _>(SharedMemoryError::AllocationFailed(0)),
        match r {
            Ok(h) => {
                &&& h != 0
                &&& !old(table).issued(h)
                &&& final(table)@ == old(table)@.insert(h, final(table)@[h])
                &&& final(table)@[h].size_view() == size
                &&& final(table)@[h].owner_view()
                &&& final(table)@[h].id_view().len() > 0
                &&& forall|g: u64| #[trigger] final(table).issued(g) == (old(table).issued(g) || g == h)
            },
            Err(e) => {
                &&& final(table)@ == old(table)@
                &&& forall|g: u64| #[trigger] final(table).issued(g) == old(table).issued(g)
                &&& (e is AllocationFailed || (e == SharedMemoryError::TableFull && old(table).is_full()))
            },
        },
{
    register(table, SharedSegment::create(size))
}

/// Opens the existing segment with id `os_id` and returns its handle.
pub fn open_segment(table: &mut HandleTable<SharedSegment>, size: usize, os_id: &str) -> (r: Result<u64, SharedMemoryError>)
    requires
        old(table).wf(),
    ensures
        final(table).wf(),
        os_id@.len() == 0 ==> r == Err::<u64, _>(SharedMemoryError::NotFound),
        match r {
            Ok(h) => {
                &&& h != 0
                &&& !old(table).issued(h)
                &&& final(table)@ == old(table)@.insert(h, final(table)@[h])
                &&& !final(table)@[h].owner_view()
                &&& final(table)@[h].id_view() == os_id@
                &&& forall|g: u64| #[trigger] final(table).issued(g) == (old(table).issued(g) || g == h)
            },
            Err(e) => {
                &&& final(table)@ == old(table)@
                &&& forall|g: u64| #[trigger] final(table).issued(g) == old(table).issued(g)
                &&& (e is NotFound || e is AccessDenied || e is OpenFailed || (e
                    == SharedMemoryError::TableFull && old(table).is_full()))
            },
        },
{
    register(table, SharedSegment::open(size, os_id))
}

/// Destroys the segment of handle `h`: it is unmapped, and removed from the
/// OS when this process owns it. A handle that is 0 or already destroyed is
/// left alone.
pub fn destroy_segment(table: &mut HandleTable<SharedSegment>, h: u64)
    requires
        old(table).wf(),
    ensures
        final(table).wf(),
        final(table)@ == old(table)@.remove(h),
        forall|g: u64| #[trigger] final(table).issued(g) == old(table).issued(g),
{
    let _ = table.remove(h);
}

/// Whether the segment of handle `h` is owned by this process.
pub fn segment_is_owner(table: &HandleTable<SharedSegment>, h: u64) -> (r: Result<bool, SharedMemoryError>)
    requires
        table.wf(),
    ensures
        r == (if table@.contains_key(h) {
            Ok::<bool, SharedMemoryError>(table@[h].owner_view())
        } else {
            Err(SharedMemoryError::InvalidHandle)
        }),
{
    match table.resolve(h) {
        Some(s) => Ok(s.is_owner()),
        None => Err(SharedMemoryError::InvalidHandle),
    }
}

/// The id of the segment of handle `h`.
pub fn segment_os_id(table: &HandleTable<SharedSegment>, h: u64) -> (r: Result<&str, SharedMemoryError>)
    requires
        table.wf(),
    ensures
        r is Ok == table@.contains_key(h),
        r matches Ok(id) ==> id@ == table@[h].id_view() && id@.len() > 0,
        r matches Err(e) ==> e == SharedMemoryError::InvalidHandle,
{
    match table.resolve(h) {
        Some(s) => Ok(s.os_id()),
        None => Err(SharedMemoryError::InvalidHandle),
    }
}

/// The mapped length of the segment of handle `h`.
pub fn segment_size(table: &HandleTable<SharedSegment>, h: u64) -> (r: Result<usize, SharedMemoryError>)
    requires
        table.wf(),
    ensures
        r == (if table@.contains_key(h) {
            Ok::<usize, SharedMemoryError>(table@[h].size_view())
        } else {
            Err(SharedMemoryError::InvalidHandle)
        }),
{
    match table.resolve(h) {
        Some(s) => Ok(s.size()),
        None => Err(SharedMemoryError::InvalidHandle),
    }
}

/// The segment of handle `h` with `offset` and `length` as sizes, when the
/// byte range `offset..offset + length` lies inside it.
pub fn segment_range(table: &HandleTable<SharedSegment>, h: u64, offset: i64, length: i64) -> (r: Result<(&SharedSegment, usize, usize), SharedMemoryError>)
    requires
        table.wf(),
    ensures
        !table@.contains_key(h) ==> r == Err::<(&SharedSegment, usize, usize), _>(SharedMemoryError::InvalidHandle),
        table@.contains_key(h) ==> (r is Ok <==> range_fits(offset as int, length as int, table@[h].size_view() as int)),
        r matches Ok((s, o, l)) ==> *s == table@[h] && o == offset && l == length,
        r matches Err(e) ==> (e == SharedMemoryError::InvalidHandle || e == SharedMemoryError::OutOfBounds),
{
    match table.resolve(h) {
        Some(s) => {
            let size = s.size();
            if offset < 0 || length < 0 {
                return Err(SharedMemoryError::OutOfBounds);
            }
            let (o, l) = (offset as u64, length as u64);
            if o > size as u64 || l > (size as u64) - o {
                return Err(SharedMemoryError::OutOfBounds);
            }
            Ok((s, o as usize, l as usize))
        },
        None => Err(SharedMemoryError::InvalidHandle),
    }
}

} // verus!

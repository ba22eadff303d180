//! One mapped shared-memory segment and what it reports about itself.
use vstd::prelude::*;
use crate::error::SharedMemoryError;
use shared_memory::{Shmem, ShmemConf, ShmemError};

verus! {

#[verifier::external_type_specification]
#[verifier::external_body]
pub struct ExShmem(Shmem);

#[verifier::external_type_specification]
#[verifier::external_body]
pub struct ExIoError(std::io::Error);

#[verifier::external_type_specification]
pub struct ExShmemError(ShmemError);

/// `errno` value for a name that does not exist.
pub const ENOENT: u32 = 2;

/// `errno` value for a permission denial.
pub const EACCES: u32 = 13;

/// What a failed `create` reports for each error of the mapping crate.
pub open spec fn create_error_spec(e: ShmemError) -> SharedMemoryError {
    match e {
        ShmemError::MapCreateFailed(code) => SharedMemoryError::AllocationFailed(code),
        ShmemError::UnknownOsError(code) => SharedMemoryError::AllocationFailed(code),
        _ => SharedMemoryError::AllocationFailed(0),
    }
}

/// What a failed `open` reports for each error of the mapping crate.
pub open spec fn open_error_spec(e: ShmemError) -> SharedMemoryError {
    match e {
        ShmemError::MapOpenFailed(code) => if code == ENOENT {
            SharedMemoryError::NotFound
        } else if code == EACCES {
            SharedMemoryError::AccessDenied
        } else {
            SharedMemoryError::OpenFailed(code)
        },
        ShmemError::UnknownOsError(code) => SharedMemoryError::OpenFailed(code),
        _ => SharedMemoryError::OpenFailed(0),
    }
}

/// Classifies an error of `ShmemConf::create`.
pub fn create_error(e: &ShmemError) -> (r: SharedMemoryError)
    ensures
        r == create_error_spec(*e),
{
    match e {
        ShmemError::MapCreateFailed(code) => SharedMemoryError::AllocationFailed(*code),
        ShmemError::UnknownOsError(code) => SharedMemoryError::AllocationFailed(*code),
        _ => SharedMemoryError::AllocationFailed(0),
    }
}

/// Classifies an error of `ShmemConf::open`.
pub fn open_error(e: &ShmemError) -> (r: SharedMemoryError)
    ensures
        r == open_error_spec(*e),
{
    match e {
        ShmemError::MapOpenFailed(code) => {
            if *code == ENOENT {
                SharedMemoryError::NotFound
            } else if *code == EACCES {
                SharedMemoryError::AccessDenied
            } else {
                SharedMemoryError::OpenFailed(*code)
            }
        },
        ShmemError::UnknownOsError(code) => SharedMemoryError::OpenFailed(*code),
        _ => SharedMemoryError::OpenFailed(0),
    }
}

/// Relies on `ShmemConf::new`, `ShmemConf::size` and `ShmemConf::create`: a
/// request of size 0 fails with `MapSizeZero`; a new mapping has the requested
/// length, is owned, and gets a generated id of the form `/shmem_<hex>`. Its
/// length, ownership and id are read back with `Shmem::len`, `Shmem::is_owner`
/// and `Shmem::get_os_id`.
#[verifier::external_body]
fn create_mapping(size: usize) -> (r: Result<(Shmem, usize, bool, String), ShmemError>)
    ensures
        size == 0 ==> r matches Err(ShmemError::MapSizeZero),
        r matches Ok((_, len, owner, id)) ==> len == size && owner && id@.len() > 0,
{
    match ShmemConf::new().size(size).create() {
        Ok(m) => {
            let id = String::from(m.get_os_id());
            let (len, owner) = (m.len(), m.is_owner());
            Ok((m, len, owner, id))
        },
        Err(e) => Err(e),
    }
}

/// Relies on `ShmemConf::new`, `ShmemConf::size`, `ShmemConf::os_id` and
/// `ShmemConf::open`: an opened mapping is not owned and keeps the id it was
/// opened by; its length is the one the OS reports. Length, ownership and id
/// are read back with `Shmem::len`, `Shmem::is_owner` and `Shmem::get_os_id`.
#[verifier::external_body]
fn open_mapping(size: usize, os_id: &str) -> (r: Result<(Shmem, usize, bool, String), ShmemError>)
    ensures
        r matches Ok((_, len, owner, id)) ==> !owner && id@ == os_id@,
{
    match ShmemConf::new().size(size).os_id(os_id).open() {
        Ok(m) => {
            let id = String::from(m.get_os_id());
            let (len, owner) = (m.len(), m.is_owner());
            Ok((m, len, owner, id))
        },
        Err(e) => Err(e),
    }
}

/// A shared-memory segment mapped into this process.
///
/// Dropping it unmaps the memory; when this process owns the segment, the OS
/// object is removed as well, and opening it by id fails from then on.
pub struct SharedSegment {
    mapping: Shmem,
    os_id: String,
    size: usize,
    owner: bool,
}

impl SharedSegment {
    #[verifier::type_invariant]
    spec fn inv(&self) -> bool {
        self.os_id@.len() > 0
    }

    /// The id under which other processes open this segment.
    pub closed spec fn id_view(&self) -> Seq<char> {
        self.os_id@
    }

    /// The mapped length in bytes.
    pub closed spec fn size_view(&self) -> usize {
        self.size
    }

    /// Whether this handle removes the OS object when it is dropped.
    pub closed spec fn owner_view(&self) -> bool {
        self.owner
    }

    /// Creates a new segment of `size` bytes under a generated id; this
    /// process owns it. A size of 0 is refused.
    pub fn create(size: usize) -> (r: Result<SharedSegment, SharedMemoryError>)
        ensures
            size == 0 ==> r == Err::<SharedSegment, _>(SharedMemoryError::AllocationFailed(0)),
            r matches Ok(s) ==> s.size_view() == size && s.owner_view() && s.id_view().len() > 0,
            r matches Err(e) ==> e is AllocationFailed,
    {
        match create_mapping(size) {
            Ok((mapping, len, owner, id)) => Ok(SharedSegment { mapping, os_id: id, size: len, owner }),
            Err(e) => Err(create_error(&e)),
        }
    }

    /// Opens the existing segment with id `os_id`, mapping it into this
    /// process without owning it. An empty id names no segment.
    pub fn open(size: usize, os_id: &str) -> (r: Result<SharedSegment, SharedMemoryError>)
        ensures
            os_id@.len() == 0 ==> r == Err::<SharedSegment, _>(SharedMemoryError::NotFound),
            r matches Ok(s) ==> !s.owner_view() && s.id_view() == os_id@,
            r matches Err(e) ==> (e is NotFound || e is AccessDenied || e is OpenFailed),
    {
        if os_id.unicode_len() == 0 {
            return Err(SharedMemoryError::NotFound);
        }
        match open_mapping(size, os_id) {
            Ok((mapping, len, owner, id)) => Ok(SharedSegment { mapping, os_id: id, size: len, owner }),
            Err(e) => Err(open_error(&e)),
        }
    }

    /// The id under which other processes open this segment; never empty.
    pub fn os_id(&self) -> (r: &str)
        ensures
            r@ == self.id_view(),
            r@.len() > 0,
    {
        proof {
            use_type_invariant(self);
        }
        self.os_id.as_str()
    }

    /// The mapped length in bytes.
    pub fn size(&self) -> (r: usize)
        ensures
            r == self.size_view(),
    {
        self.size
    }

    /// Whether this handle removes the OS object when it is dropped.
    pub fn is_owner(&self) -> (r: bool)
        ensures
            r == self.owner_view(),
    {
        self.owner
    }

    /// The mapping itself, for code that reaches its bytes.
    pub fn mapping(&self) -> &Shmem {
        &self.mapping
    }
}

} // verus!

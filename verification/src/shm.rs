//! Requests on the shared memory of an open file.

use crate::files::to_length;
use crate::flags::{self, truth_of, ShmLockMode};
use crate::vars;
use crate::vfs::{self, done, fallible, Vfs, VfsResult};
use vstd::prelude::*;

verus! {

/// Passes on the answer to a mapping request. `p_page` holds what is stored for
/// SQLite, once something is: the region, or that there is none.
pub fn shm_map_reply<R>(answer: VfsResult<Option<R>>, p_page: &mut Option<Option<R>>) -> (outcome:
    VfsResult<i32>)
    ensures
        outcome == vfs::done_spec(answer),
        *final(p_page) == match answer {
            Ok(region) => Some(region),
            Err(_) => *old(p_page),
        },
{
    let region = answer?;
    *p_page = Some(region);
    Ok(vars::SQLITE_OK)
}

/// Maps region `pg`, of `pgsz` bytes, of the shared memory of a file.
pub fn x_shm_map<T: Vfs>(
    p_file: Option<&mut T::Handle>,
    p_vfs: Option<&T>,
    pg: i32,
    pgsz: i32,
    extend: i32,
    p_page: &mut Option<Option<T::Region>>,
) -> (rc: i32)
    ensures
        match (p_file, p_vfs) {
            (Some(handle), Some(vfs)) => if pg < 0 || pgsz < 0 {
                &&& rc == vars::SQLITE_IOERR
                &&& *final(handle) == *handle
                &&& *final(p_page) == *old(p_page)
            } else {
                exists|h: &mut T::Handle, answer: VfsResult<Option<T::Region>>|
                    {
                        &&& *h == *handle
                        &&& *final(h) == *final(handle)
                        &&& #[trigger] call_ensures(
                            T::shm_map,
                            (vfs, h, pg as usize, pgsz as usize, flags::is_set(extend)),
                            answer,
                        )
                        &&& rc == vfs::status(answer)
                        &&& *final(p_page) == match answer {
                            Ok(region) => Some(region),
                            Err(_) => *old(p_page),
                        }
                    }
            },
            (Some(handle), None) => {
                &&& rc == vars::SQLITE_INTERNAL
                &&& *final(handle) == *handle
                &&& *final(p_page) == *old(p_page)
            },
            (None, _) => rc == vars::SQLITE_INTERNAL && *final(p_page) == *old(p_page),
        },
{
    match (p_file, p_vfs) {
        (Some(handle), Some(vfs)) => {
            let (region_idx, region_size): (usize, usize) = match (
                to_length(pg, vars::SQLITE_IOERR),
                to_length(pgsz, vars::SQLITE_IOERR),
            ) {
                (Ok(idx), Ok(size)) => (idx, size),
                _ => return vars::SQLITE_IOERR,
            };
            fallible(
                shm_map_reply(vfs.shm_map(handle, region_idx, region_size, truth_of(extend)), p_page),
            )
        },
        _ => vars::SQLITE_INTERNAL,
    }
}

/// A lock request on slots of shared memory: the first slot, their number, and
/// what is asked.
pub struct ShmLockRequest {
    pub offset: u32,
    pub count: u32,
    pub mode: ShmLockMode,
}

/// The request that SQLite's raw arguments make, or the code by which they are
/// refused.
pub open spec fn shm_lock_request_spec(offset: i32, n: i32, flags: i32) -> VfsResult<
    ShmLockRequest,
> {
    if offset < 0 || n < 0 {
        Err(vars::SQLITE_IOERR)
    } else {
        match flags::shm_lock_mode_of(flags) {
            Err(err) => Err(err),
            Ok(mode) => Ok(ShmLockRequest { offset: offset as u32, count: n as u32, mode }),
        }
    }
}

/// Checks the raw arguments of a lock request.
pub fn shm_lock_request(offset: i32, n: i32, flags: i32) -> (request: VfsResult<ShmLockRequest>)
    ensures
        request == shm_lock_request_spec(offset, n, flags),
{
    let first: u32 = match u32::try_from(offset) {
        Ok(first) => first,
        Err(_) => return Err(vars::SQLITE_IOERR),
    };
    let count: u32 = match u32::try_from(n) {
        Ok(count) => count,
        Err(_) => return Err(vars::SQLITE_IOERR),
    };
    match ShmLockMode::try_from(flags) {
        Ok(mode) => Ok(ShmLockRequest { offset: first, count, mode }),
        Err(err) => Err(err),
    }
}

/// Locks or unlocks slots of the shared memory of a file.
pub fn x_shm_lock<T: Vfs>(
    p_file: Option<&mut T::Handle>,
    p_vfs: Option<&T>,
    offset: i32,
    n: i32,
    flags: i32,
) -> (rc: i32)
    ensures
        match (p_file, p_vfs) {
            (Some(handle), Some(vfs)) => match shm_lock_request_spec(offset, n, flags) {
                Err(err) => rc == err && *final(handle) == *handle,
                Ok(request) => exists|h: &mut T::Handle, answer: VfsResult<()>|
                    {
                        &&& *h == *handle
                        &&& *final(h) == *final(handle)
                        &&& #[trigger] call_ensures(
                            T::shm_lock,
                            (vfs, h, request.offset, request.count, request.mode),
                            answer,
                        )
                        &&& rc == vfs::status(answer)
                    },
            },
            (Some(handle), None) => rc == vars::SQLITE_INTERNAL && *final(handle) == *handle,
            (None, _) => rc == vars::SQLITE_INTERNAL,
        },
{
    match (p_file, p_vfs) {
        (Some(handle), Some(vfs)) => match shm_lock_request(offset, n, flags) {
            Ok(request) => fallible(
                done(vfs.shm_lock(handle, request.offset, request.count, request.mode)),
            ),
            Err(err) => err,
        },
        _ => vars::SQLITE_INTERNAL,
    }
}

/// Orders the accesses to the shared memory of a file. There is nobody to tell
/// where the file or its VFS is missing.
pub fn x_shm_barrier<T: Vfs>(p_file: Option<&mut T::Handle>, p_vfs: Option<&T>)
    ensures
        match (p_file, p_vfs) {
            (Some(handle), Some(vfs)) => exists|h: &mut T::Handle|
                {
                    &&& *h == *handle
                    &&& *final(h) == *final(handle)
                    &&& #[trigger] call_ensures(T::shm_barrier, (vfs, h), ())
                },
            (Some(handle), None) => *final(handle) == *handle,
            (None, _) => true,
        },
{
    if let (Some(handle), Some(vfs)) = (p_file, p_vfs) {
        vfs.shm_barrier(handle);
    }
}

/// Ends the use of the shared memory of a file, and deletes it where
/// `delete_flag` is not zero.
pub fn x_shm_unmap<T: Vfs>(p_file: Option<&mut T::Handle>, p_vfs: Option<&T>, delete_flag: i32) -> (rc:
    i32)
    ensures
        match (p_file, p_vfs) {
            (Some(handle), Some(vfs)) => exists|h: &mut T::Handle, answer: VfsResult<()>|
                {
                    &&& *h == *handle
                    &&& *final(h) == *final(handle)
                    &&& #[trigger] call_ensures(T::shm_unmap, (vfs, h, flags::is_set(delete_flag)), answer)
                    &&& rc == vfs::status(answer)
                },
            (Some(handle), None) => rc == vars::SQLITE_INTERNAL && *final(handle) == *handle,
            (None, _) => rc == vars::SQLITE_INTERNAL,
        },
{
    match (p_file, p_vfs) {
        (Some(handle), Some(vfs)) => fallible(done(vfs.shm_unmap(handle, truth_of(delete_flag)))),
        _ => vars::SQLITE_INTERNAL,
    }
}

/// A region with any number and any size from zero up reaches the VFS as these numbers.
/// What the VFS maps, if anything, is what SQLite gets; an error leaves the place for it
/// as it is.
pub proof fn law_shm_map_reaches_the_vfs<T: Vfs>(
    handle: &mut T::Handle,
    vfs: &T,
    pg: i32,
    pgsz: i32,
    extend: i32,
    p_page: &mut Option<Option<T::Region>>,
    rc: i32,
)
    requires
        0 <= pg,
        0 <= pgsz,
        call_ensures(x_shm_map::<T>, (Some(handle), Some(vfs), pg, pgsz, extend, p_page), rc),
    ensures
        exists|h: &mut T::Handle, grow: bool, answer: VfsResult<Option<T::Region>>|
            {
                &&& #[trigger] call_ensures(
                    T::shm_map,
                    (vfs, h, pg as usize, pgsz as usize, grow),
                    answer,
                )
                &&& grow <==> extend != 0
                &&& *h == *old(handle) && *final(h) == *final(handle)
                &&& answer matches Ok(region) ==> rc == 0 && *final(p_page) == Some(region)
                &&& answer matches Err(err) ==> rc == err && *final(p_page) == *old(p_page)
            },
{
}

/// A region that cannot be put to the VFS changes nothing: it is an internal error where
/// the file or its VFS is missing, and otherwise an I/O error.
pub proof fn law_refused_shm_map_changes_nothing<T: Vfs>(
    p_file: Option<&mut T::Handle>,
    p_vfs: Option<&T>,
    pg: i32,
    pgsz: i32,
    extend: i32,
    p_page: &mut Option<Option<T::Region>>,
    rc: i32,
)
    requires
        p_file is None || p_vfs is None || pg < 0 || pgsz < 0,
        call_ensures(x_shm_map::<T>, (p_file, p_vfs, pg, pgsz, extend, p_page), rc),
    ensures
        p_file is None || p_vfs is None ==> rc == 2,
        p_file is Some && p_vfs is Some ==> rc == 10,
        *final(p_page) == *old(p_page),
        p_file matches Some(handle) ==> *final(handle) == *handle,
{
}

/// A lock request is accepted exactly where the first slot and the count are not
/// negative and the flags are one of the four requests; it then keeps these numbers and
/// that request. Any other is refused with an I/O error.
pub proof fn law_lock_requests_are_kept(
    offset: i32,
    n: i32,
    flags: i32,
    request: VfsResult<ShmLockRequest>,
)
    requires
        call_ensures(shm_lock_request, (offset, n, flags), request),
    ensures
        request is Ok <==> 0 <= offset && 0 <= n && (flags == 5 || flags == 6 || flags == 9 || flags
            == 10),
        request matches Err(err) ==> err == 10,
        request matches Ok(r) ==> {
            &&& r.offset == offset
            &&& r.count == n
            &&& r.mode is UnlockShared <==> flags == 5
            &&& r.mode is LockShared <==> flags == 6
            &&& r.mode is UnlockExclusive <==> flags == 9
            &&& r.mode is LockExclusive <==> flags == 10
        },
{
    flags::law_shm_lock_modes_have_numbers(flags);
}

/// Every lock request on slots from zero up reaches the VFS with that first slot, that
/// count and that request, and the VFS's answer goes back.
pub proof fn law_shm_lock_reaches_the_vfs<T: Vfs>(
    handle: &mut T::Handle,
    vfs: &T,
    offset: i32,
    n: i32,
    flags: i32,
    rc: i32,
)
    requires
        0 <= offset,
        0 <= n,
        flags == 5 || flags == 6 || flags == 9 || flags == 10,
        call_ensures(x_shm_lock::<T>, (Some(handle), Some(vfs), offset, n, flags), rc),
    ensures
        exists|h: &mut T::Handle, mode: ShmLockMode, answer: VfsResult<()>|
            {
                &&& #[trigger] call_ensures(
                    T::shm_lock,
                    (vfs, h, offset as u32, n as u32, mode),
                    answer,
                )
                &&& mode is UnlockShared <==> flags == 5
                &&& mode is LockShared <==> flags == 6
                &&& mode is UnlockExclusive <==> flags == 9
                &&& mode is LockExclusive <==> flags == 10
                &&& *h == *old(handle) && *final(h) == *final(handle)
                &&& rc == match answer {
                    Ok(_) => 0i32,
                    Err(err) => err,
                }
            },
{
    flags::law_shm_lock_modes_have_numbers(flags);
}

/// A lock request that cannot be put to the VFS changes nothing: it is an internal error
/// where the file or its VFS is missing, and otherwise an I/O error.
pub proof fn law_refused_shm_lock_changes_nothing<T: Vfs>(
    p_file: Option<&mut T::Handle>,
    p_vfs: Option<&T>,
    offset: i32,
    n: i32,
    flags: i32,
    rc: i32,
)
    requires
        p_file is None || p_vfs is None || offset < 0 || n < 0 || (flags != 5 && flags != 6 && flags
            != 9 && flags != 10),
        call_ensures(x_shm_lock::<T>, (p_file, p_vfs, offset, n, flags), rc),
    ensures
        p_file is None || p_vfs is None ==> rc == 2,
        p_file is Some && p_vfs is Some ==> rc == 10,
        p_file matches Some(handle) ==> *final(handle) == *handle,
{
    flags::law_shm_lock_modes_have_numbers(flags);
}

/// A barrier reaches the VFS where the file and its VFS are there, and changes nothing
/// where they are not.
pub proof fn law_shm_barrier_reaches_the_vfs<T: Vfs>(
    p_file: Option<&mut T::Handle>,
    p_vfs: Option<&T>,
)
    requires
        call_ensures(x_shm_barrier::<T>, (p_file, p_vfs), ()),
    ensures
        p_file matches Some(handle) ==> (p_vfs matches Some(vfs) ==> exists|h: &mut T::Handle|
            {
                &&& #[trigger] call_ensures(T::shm_barrier, (vfs, h), ())
                &&& *h == *handle && *final(h) == *final(handle)
            }),
        p_file matches Some(handle) ==> (p_vfs is None ==> *final(handle) == *handle),
{
}

/// The end of the use of shared memory reaches the VFS, with a deletion exactly where the
/// flag is not zero, and the VFS's answer goes back; without a file or a VFS it is an
/// internal error.
pub proof fn law_shm_unmap_reaches_the_vfs<T: Vfs>(
    p_file: Option<&mut T::Handle>,
    p_vfs: Option<&T>,
    delete_flag: i32,
    rc: i32,
)
    requires
        call_ensures(x_shm_unmap::<T>, (p_file, p_vfs, delete_flag), rc),
    ensures
        p_file is None || p_vfs is None ==> rc == 2,
        p_file matches Some(handle) ==> (p_vfs is None ==> *final(handle) == *handle),
        p_file matches Some(handle) ==> (p_vfs matches Some(vfs) ==> exists|
            h: &mut T::Handle,
            delete: bool,
            answer: VfsResult<()>,
        |
            {
                &&& #[trigger] call_ensures(T::shm_unmap, (vfs, h, delete), answer)
                &&& delete <==> delete_flag != 0
                &&& *h == *handle && *final(h) == *final(handle)
                &&& rc == match answer {
                    Ok(_) => 0i32,
                    Err(err) => err,
                }
            }),
{
}

} // verus!

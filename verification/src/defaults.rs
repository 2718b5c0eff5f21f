//! What SQLite gets from a VFS that keeps the default of an optional method.
//!
//! The first laws say what the defaults are, of a VFS that keeps all of them. Each of the
//! others speaks of every VFS of which the `default_ensures` of one method hold, whatever
//! it does elsewhere: an implementation that keeps the body of the method is such a VFS.

use crate::api::SqliteApi;
use crate::control::x_file_control;
use crate::files::{x_device_characteristics, x_sector_size, x_sync};
use crate::flags::{AccessFlags, LockLevel, OpenOpts, ShmLockMode};
use crate::paths::{self, x_full_pathname};
use crate::shm::{x_shm_barrier, x_shm_lock, x_shm_map, x_shm_unmap};
use crate::text;
use crate::vars;
use crate::vfs::{
    Pragma, PragmaErr, SqliteErr, Vfs, VfsHandle, VfsResult, DEFAULT_DEVICE_CHARACTERISTICS, DEFAULT_SECTOR_SIZE,
};
use std::borrow::Cow;
use vstd::prelude::*;
use vstd::utf8;

verus! {

/// A file of the VFS `Plain`.
pub struct PlainHandle {
    pub readonly: bool,
    pub in_memory: bool,
}

impl VfsHandle for PlainHandle {
    fn readonly(&self) -> (readonly: bool)
        ensures
            readonly == self.readonly,
    {
        self.readonly
    }

    fn in_memory(&self) -> (in_memory: bool)
        ensures
            in_memory == self.in_memory,
    {
        self.in_memory
    }
}

/// A VFS that keeps every default. What it would have to do itself it refuses.
pub struct Plain {}

impl Vfs for Plain {
    type Handle = PlainHandle;

    type Region = u64;

    fn open(&self, path: Option<&str>, opts: OpenOpts) -> (refused: VfsResult<PlainHandle>)
        ensures
            refused == Err::<PlainHandle, SqliteErr>(vars::SQLITE_IOERR),
    {
        Err(vars::SQLITE_IOERR)
    }

    fn delete(&self, path: &str) -> (refused: VfsResult<()>)
        ensures
            refused == Err::<(), SqliteErr>(vars::SQLITE_IOERR),
    {
        Err(vars::SQLITE_IOERR)
    }

    fn access(&self, path: &str, flags: AccessFlags) -> (refused: VfsResult<bool>)
        ensures
            refused == Err::<bool, SqliteErr>(vars::SQLITE_IOERR),
    {
        Err(vars::SQLITE_IOERR)
    }

    fn file_size(&self, handle: &mut PlainHandle) -> (refused: VfsResult<usize>)
        ensures
            refused == Err::<usize, SqliteErr>(vars::SQLITE_IOERR),
            *final(handle) == *old(handle),
    {
        Err(vars::SQLITE_IOERR)
    }

    fn truncate(&self, handle: &mut PlainHandle, size: usize) -> (refused: VfsResult<()>)
        ensures
            refused == Err::<(), SqliteErr>(vars::SQLITE_IOERR),
            *final(handle) == *old(handle),
    {
        Err(vars::SQLITE_IOERR)
    }

    fn write(&self, handle: &mut PlainHandle, offset: usize, data: &[u8]) -> (refused: VfsResult<usize>)
        ensures
            refused == Err::<usize, SqliteErr>(vars::SQLITE_IOERR),
            *final(handle) == *old(handle),
    {
        Err(vars::SQLITE_IOERR)
    }

    fn read(&self, handle: &mut PlainHandle, offset: usize, data: &mut [u8]) -> (refused: VfsResult<usize>)
        ensures
            refused == Err::<usize, SqliteErr>(vars::SQLITE_IOERR),
            *final(handle) == *old(handle),
            final(data)@ == old(data)@,
    {
        Err(vars::SQLITE_IOERR)
    }

    fn lock(&self, handle: &mut PlainHandle, level: LockLevel) -> (refused: VfsResult<()>)
        ensures
            refused == Err::<(), SqliteErr>(vars::SQLITE_IOERR),
            *final(handle) == *old(handle),
    {
        Err(vars::SQLITE_IOERR)
    }

    fn unlock(&self, handle: &mut PlainHandle, level: LockLevel) -> (refused: VfsResult<()>)
        ensures
            refused == Err::<(), SqliteErr>(vars::SQLITE_IOERR),
            *final(handle) == *old(handle),
    {
        Err(vars::SQLITE_IOERR)
    }

    fn check_reserved_lock(&self, handle: &mut PlainHandle) -> (refused: VfsResult<bool>)
        ensures
            refused == Err::<bool, SqliteErr>(vars::SQLITE_IOERR),
            *final(handle) == *old(handle),
    {
        Err(vars::SQLITE_IOERR)
    }

    fn close(&self, handle: PlainHandle) -> (refused: VfsResult<()>)
        ensures
            refused == Err::<(), SqliteErr>(vars::SQLITE_IOERR),
    {
        Err(vars::SQLITE_IOERR)
    }
}

/// The default canonical version of any path is the path itself, borrowed where it was
/// borrowed.
pub proof fn law_default_of_canonical_path(
    vfs: &Plain,
    path: Cow<'_, str>,
    full: VfsResult<Cow<'_, str>>,
)
    requires
        call_ensures(Plain::canonical_path, (vfs, path), full),
    ensures
        full == Ok::<Cow<'_, str>, SqliteErr>(path),
{
}

/// The default answers to the queries about any open file leave it as it is: a sync
/// succeeds, the sector size is 4096, and the device writes atomically, appends safely,
/// writes in order and overwrites safely.
pub proof fn law_defaults_of_queries(
    vfs: &Plain,
    synced: &mut PlainHandle,
    done: VfsResult<()>,
    sized: &mut PlainHandle,
    size: VfsResult<i32>,
    asked: &mut PlainHandle,
    characteristics: VfsResult<i32>,
)
    requires
        call_ensures(Plain::sync, (vfs, synced), done),
        call_ensures(Plain::sector_size, (vfs, sized), size),
        call_ensures(Plain::device_characteristics, (vfs, asked), characteristics),
    ensures
        done is Ok && *final(synced) == *old(synced),
        size == Ok::<i32, SqliteErr>(4096) && *final(sized) == *old(sized),
        characteristics matches Ok(bits) && bits == 0x1 + 0x200 + 0x400 + 0x1000,
        *final(asked) == *old(asked),
{
    assert(0x1i32 | 0x1000i32 | 0x200i32 | 0x400i32 == 0x1601i32) by (bit_vector);
}

/// The default answer to any pragma is that it is not known; the file stays as it is.
pub proof fn law_default_of_pragma(
    vfs: &Plain,
    handle: &mut PlainHandle,
    pragma: Pragma<'_>,
    answer: Result<Option<String>, PragmaErr>,
)
    requires
        call_ensures(Plain::pragma, (vfs, handle, pragma), answer),
    ensures
        answer matches Err(err) && err is NotFound,
        *final(handle) == *old(handle),
{
}

/// The default answers about shared memory leave any file as it is: no region can be set
/// up, and no slot be locked or unlocked, nor its use be ended.
pub proof fn law_defaults_of_shared_memory(
    vfs: &Plain,
    mapped: &mut PlainHandle,
    region_idx: usize,
    region_size: usize,
    extend: bool,
    region: VfsResult<Option<u64>>,
    locked: &mut PlainHandle,
    offset: u32,
    count: u32,
    mode: ShmLockMode,
    lock: VfsResult<()>,
    ordered: &mut PlainHandle,
    unmapped: &mut PlainHandle,
    delete: bool,
    unmap: VfsResult<()>,
)
    requires
        call_ensures(Plain::shm_map, (vfs, mapped, region_idx, region_size, extend), region),
        call_ensures(Plain::shm_lock, (vfs, locked, offset, count, mode), lock),
        call_ensures(Plain::shm_barrier, (vfs, ordered), ()),
        call_ensures(Plain::shm_unmap, (vfs, unmapped, delete), unmap),
    ensures
        region == Err::<Option<u64>, SqliteErr>(1288) && *final(mapped) == *old(mapped),
        lock == Err::<(), SqliteErr>(10) && *final(locked) == *old(locked),
        *final(ordered) == *old(ordered),
        unmap == Err::<(), SqliteErr>(10) && *final(unmapped) == *old(unmapped),
{
}

/// Whether the canonical version of a path is, on this VFS, the path itself.
pub open spec fn keeps_paths<T: Vfs>(vfs: &T) -> bool {
    forall|path: Cow<'_, str>, full: VfsResult<Cow<'_, str>>| #[trigger]
        call_ensures(T::canonical_path, (vfs, path), full) ==> full == Ok::<Cow<'_, str>, SqliteErr>(path)
}

/// By default a path is its own canonical version, and so is what comes of asking
/// again; asking never fails.
pub proof fn law_default_canonical_path_is_idempotent<T: Vfs>(
    vfs: &T,
    path: Cow<'_, str>,
    full: VfsResult<Cow<'_, str>>,
    again: VfsResult<Cow<'_, str>>,
)
    requires
        keeps_paths(vfs),
        call_ensures(T::canonical_path, (vfs, path), full),
        full matches Ok(canonical) ==> call_ensures(T::canonical_path, (vfs, canonical), again),
    ensures
        full == Ok::<Cow<'_, str>, SqliteErr>(path),
        again == full,
{
}

/// By default the full path name of any path is the text of the path itself, cut
/// short where it does not fit.
pub proof fn law_default_full_pathname<T: Vfs>(
    vfs: &T,
    name: &[u8],
    n_out: i32,
    out: &mut [u8],
    rc: i32,
)
    requires
        keeps_paths(vfs),
        n_out > 0,
        call_ensures(x_full_pathname::<T>, (Some(vfs), Some(name), n_out, out), rc),
    ensures
        rc == vars::SQLITE_OK,
        rc == 0,
        exists|path: Seq<char>|
            #[trigger] text::is_text_of(path, name@) && final(out)@ == paths::path_buffer(
                utf8::encode_utf8(path),
                old(out)@,
            ),
{
}

/// By default no pragma is known, whatever its name and argument: SQLite is told so,
/// gets no text, and the file stays as it is.
pub proof fn law_default_pragma_is_not_found<
    T: Vfs,
    Register,
    Find,
    Mprintf,
    Log,
    LibversionNumber,
    P,
    Call: FnOnce(&Mprintf, &[u8], &[u8]) -> Option<P>,
>(
    handle: &mut T::Handle,
    vfs: &T,
    api: &SqliteApi<Register, Find, Mprintf, Log, LibversionNumber>,
    name: &[u8],
    z_arg: Option<&[u8]>,
    call: Call,
    p_text: &mut Option<P>,
    rc: i32,
)
    requires
        forall|h: &mut T::Handle, pragma: Pragma<'_>, answer: Result<Option<String>, PragmaErr>|
            #[trigger] call_ensures(T::pragma, (vfs, h, pragma), answer) ==> answer == Err::<
                Option<String>,
                PragmaErr,
            >(PragmaErr::NotFound) && *final(h) == *h,
        call_ensures(
            x_file_control::<T, Register, Find, Mprintf, Log, LibversionNumber, P, Call>,
            (
                Some(handle),
                Some((vfs, api)),
                vars::SQLITE_FCNTL_PRAGMA,
                Some(name),
                z_arg,
                call,
                p_text,
            ),
            rc,
        ),
    ensures
        rc == vars::SQLITE_NOTFOUND,
        rc == 12,
        *final(p_text) == *old(p_text),
        *final(handle) == *old(handle),
{
}

/// By default shared memory cannot be had: SQLite is told that it cannot be set up,
/// gets no region, and the file stays as it is.
pub proof fn law_default_shm_map_cannot_init<T: Vfs>(
    handle: &mut T::Handle,
    vfs: &T,
    pg: i32,
    pgsz: i32,
    extend: i32,
    p_page: &mut Option<Option<T::Region>>,
    rc: i32,
)
    requires
        forall|
            h: &mut T::Handle,
            region_idx: usize,
            region_size: usize,
            grow: bool,
            region: VfsResult<Option<T::Region>>,
        |
            #[trigger] call_ensures(T::shm_map, (vfs, h, region_idx, region_size, grow), region)
                ==> region == Err::<Option<T::Region>, SqliteErr>(vars::SQLITE_READONLY_CANTINIT)
                && *final(h) == *h,
        pg >= 0,
        pgsz >= 0,
        call_ensures(x_shm_map::<T>, (Some(handle), Some(vfs), pg, pgsz, extend, p_page), rc),
    ensures
        rc == vars::SQLITE_READONLY_CANTINIT,
        rc == 1288,
        *final(p_page) == *old(p_page),
        *final(handle) == *old(handle),
{
}

/// By default every lock request on shared memory fails, and the file stays as it
/// is.
pub proof fn law_default_shm_lock_fails<T: Vfs>(
    handle: &mut T::Handle,
    vfs: &T,
    offset: i32,
    n: i32,
    flags: i32,
    rc: i32,
)
    requires
        forall|h: &mut T::Handle, first: u32, count: u32, mode: ShmLockMode, done: VfsResult<()>|
            #[trigger] call_ensures(T::shm_lock, (vfs, h, first, count, mode), done) ==> done
                == Err::<(), SqliteErr>(vars::SQLITE_IOERR) && *final(h) == *h,
        call_ensures(x_shm_lock::<T>, (Some(handle), Some(vfs), offset, n, flags), rc),
    ensures
        rc == vars::SQLITE_IOERR,
        rc == 10,
        *final(handle) == *old(handle),
{
}

/// By default a barrier leaves the file as it is.
pub proof fn law_default_shm_barrier_does_nothing<T: Vfs>(handle: &mut T::Handle, vfs: &T)
    requires
        forall|h: &mut T::Handle| #[trigger]
            call_ensures(T::shm_barrier, (vfs, h), ()) ==> *final(h) == *h,
        call_ensures(x_shm_barrier::<T>, (Some(handle), Some(vfs)), ()),
    ensures
        *final(handle) == *old(handle),
{
}

/// By default ending the use of shared memory fails, and the file stays as it is.
pub proof fn law_default_shm_unmap_fails<T: Vfs>(
    handle: &mut T::Handle,
    vfs: &T,
    delete_flag: i32,
    rc: i32,
)
    requires
        forall|h: &mut T::Handle, delete: bool, done: VfsResult<()>|
            #[trigger] call_ensures(T::shm_unmap, (vfs, h, delete), done) ==> done == Err::<
                (),
                SqliteErr,
            >(vars::SQLITE_IOERR) && *final(h) == *h,
        call_ensures(x_shm_unmap::<T>, (Some(handle), Some(vfs), delete_flag), rc),
    ensures
        rc == vars::SQLITE_IOERR,
        rc == 10,
        *final(handle) == *old(handle),
{
}

/// By default a sync succeeds, and leaves the file as it is.
pub proof fn law_default_sync_succeeds<T: Vfs>(handle: &mut T::Handle, vfs: &T, rc: i32)
    requires
        forall|h: &mut T::Handle, done: VfsResult<()>|
            #[trigger] call_ensures(T::sync, (vfs, h), done) ==> done == Ok::<(), SqliteErr>(())
                && *final(h) == *h,
        call_ensures(x_sync::<T>, (Some(handle), Some(vfs)), rc),
    ensures
        rc == vars::SQLITE_OK,
        rc == 0,
        *final(handle) == *old(handle),
{
}

/// By default the sector size is `DEFAULT_SECTOR_SIZE`, and the file stays as it is.
pub proof fn law_default_sector_size<T: Vfs>(handle: &mut T::Handle, vfs: &T, rc: i32)
    requires
        forall|h: &mut T::Handle, size: VfsResult<i32>|
            #[trigger] call_ensures(T::sector_size, (vfs, h), size) ==> size == Ok::<i32, SqliteErr>(
                DEFAULT_SECTOR_SIZE,
            ) && *final(h) == *h,
        call_ensures(x_sector_size::<T>, (Some(handle), Some(vfs)), rc),
    ensures
        rc == DEFAULT_SECTOR_SIZE,
        rc == 4096,
        *final(handle) == *old(handle),
{
}

/// By default the device promises `DEFAULT_DEVICE_CHARACTERISTICS`, and the file
/// stays as it is.
pub proof fn law_default_device_characteristics<T: Vfs>(handle: &mut T::Handle, vfs: &T, rc: i32)
    requires
        forall|h: &mut T::Handle, characteristics: VfsResult<i32>|
            #[trigger] call_ensures(T::device_characteristics, (vfs, h), characteristics)
                ==> characteristics == Ok::<i32, SqliteErr>(DEFAULT_DEVICE_CHARACTERISTICS)
                && *final(h) == *h,
        call_ensures(x_device_characteristics::<T>, (Some(handle), Some(vfs)), rc),
    ensures
        rc == DEFAULT_DEVICE_CHARACTERISTICS,
        rc == 0x1601,
        *final(handle) == *old(handle),
{
    assert(0x1i32 | 0x1000i32 | 0x200i32 | 0x400i32 == 0x1601i32) by (bit_vector);
}

} // verus!

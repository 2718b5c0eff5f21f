//! Requests on an open file.
//!
//! In each of them `p_file` is the handle in the file object that SQLite passes,
//! and `p_vfs` the VFS that the file object refers to; either can be missing.

use crate::flags::{self, int_of, LockLevel};
use crate::vars;
use crate::vfs::{self, done, fallible, SqliteErr, Vfs, VfsResult};
use vstd::prelude::*;

verus! {

/// Whether a signed offset can be used as an offset in memory.
pub open spec fn is_offset(i_ofst: i64) -> bool {
    0 <= i_ofst <= usize::MAX
}

/// The offset or size that a signed number stands for; one that is negative, or
/// too large for this machine, is refused with `err`.
pub fn to_offset(i_ofst: i64, err: SqliteErr) -> (offset: VfsResult<usize>)
    ensures
        offset == if is_offset(i_ofst) {
            Ok::<usize, SqliteErr>(i_ofst as usize)
        } else {
            Err(err)
        },
{
    match usize::try_from(i_ofst) {
        Ok(offset) => Ok(offset),
        Err(_) => Err(err),
    }
}

/// The length that a signed number stands for; a negative one is refused with
/// `err`.
pub fn to_length(i_amt: i32, err: SqliteErr) -> (length: VfsResult<usize>)
    ensures
        length == if i_amt >= 0 {
            Ok::<usize, SqliteErr>(i_amt as usize)
        } else {
            Err(err)
        },
{
    match usize::try_from(i_amt) {
        Ok(length) => Ok(length),
        Err(_) => Err(err),
    }
}

/// A file object, as an open leaves it to SQLite: the method table by which SQLite
/// calls back, the VFS that the file was opened on, and the handle.
pub struct FileWrapper<M, V, H> {
    pub methods: M,
    pub vfs: V,
    pub handle: H,
}

/// Closes a file, whose handle goes to the VFS. The method table of the file
/// object, `p_methods`, is taken out once the VFS has closed the file, and stays
/// where the VFS did not.
pub fn x_close<T: Vfs, M>(
    p_file: Option<T::Handle>,
    p_vfs: Option<&T>,
    p_methods: &mut Option<M>,
) -> (rc: i32)
    ensures
        match (p_file, p_vfs) {
            (Some(handle), Some(vfs)) => exists|answer: VfsResult<()>|
                {
                    &&& #[trigger] call_ensures(T::close, (vfs, handle), answer)
                    &&& rc == vfs::status(answer)
                    &&& *final(p_methods) == if answer is Ok {
                        None
                    } else {
                        *old(p_methods)
                    }
                },
            _ => rc == vars::SQLITE_INTERNAL && *final(p_methods) == *old(p_methods),
        },
{
    match (p_file, p_vfs) {
        (Some(handle), Some(vfs)) => fallible(close_reply(vfs.close(handle), p_methods)),
        _ => vars::SQLITE_INTERNAL,
    }
}

/// Passes on the answer to a close: the method table goes only once the file is
/// closed.
pub fn close_reply<M>(answer: VfsResult<()>, p_methods: &mut Option<M>) -> (outcome: VfsResult<i32>)
    ensures
        outcome == vfs::done_spec(answer),
        *final(p_methods) == if answer is Ok {
            None
        } else {
            *old(p_methods)
        },
{
    answer?;
    *p_methods = None;
    Ok(vars::SQLITE_OK)
}

/// Reads into `buf`, the `i_amt` bytes that SQLite wants filled.
pub fn x_read<T: Vfs>(
    p_file: Option<&mut T::Handle>,
    p_vfs: Option<&T>,
    buf: &mut [u8],
    i_amt: i32,
    i_ofst: i64,
) -> (rc: i32)
    requires
        p_file is Some && p_vfs is Some && i_amt >= 0 && is_offset(i_ofst) ==> old(buf)@.len() == i_amt,
    ensures
        match (p_file, p_vfs) {
            (Some(handle), Some(vfs)) => if i_amt < 0 || !is_offset(i_ofst) {
                &&& rc == vars::SQLITE_IOERR_READ
                &&& *final(handle) == *handle
                &&& final(buf)@ == old(buf)@
            } else {
                exists|h: &mut T::Handle, data: &mut [u8], answer: VfsResult<usize>|
                    {
                        &&& *h == *handle
                        &&& *final(h) == *final(handle)
                        &&& data@ == old(buf)@
                        &&& final(data)@ == final(buf)@
                        &&& #[trigger] call_ensures(
                            T::read,
                            (vfs, h, i_ofst as usize, data),
                            answer,
                        )
                        &&& rc == vfs::status(answer)
                    }
            },
            (Some(handle), None) => {
                &&& rc == vars::SQLITE_INTERNAL
                &&& *final(handle) == *handle
                &&& final(buf)@ == old(buf)@
            },
            (None, _) => rc == vars::SQLITE_INTERNAL && final(buf)@ == old(buf)@,
        },
{
    match (p_file, p_vfs) {
        (Some(handle), Some(vfs)) => {
            let offset: usize = match (
                to_length(i_amt, vars::SQLITE_IOERR_READ),
                to_offset(i_ofst, vars::SQLITE_IOERR_READ),
            ) {
                (Ok(_), Ok(offset)) => offset,
                _ => return vars::SQLITE_IOERR_READ,
            };
            fallible(done(vfs.read(handle, offset, buf)))
        },
        _ => vars::SQLITE_INTERNAL,
    }
}

/// The outcome of a write of `len` bytes: a short write is a failure.
pub open spec fn write_outcome(answer: VfsResult<usize>, len: int) -> VfsResult<i32> {
    match answer {
        Err(err) => Err(err),
        Ok(n) => if n == len {
            Ok(vars::SQLITE_OK)
        } else {
            Err(vars::SQLITE_IOERR_WRITE)
        },
    }
}

/// Passes on how much of `len` bytes was written.
pub fn write_reply(answer: VfsResult<usize>, len: usize) -> (outcome: VfsResult<i32>)
    ensures
        outcome == write_outcome(answer, len as int),
{
    let n: usize = answer?;
    if n != len {
        return Err(vars::SQLITE_IOERR_WRITE);
    }
    Ok(vars::SQLITE_OK)
}

/// Writes `buf`, the `i_amt` bytes that SQLite passes, all of them.
pub fn x_write<T: Vfs>(
    p_file: Option<&mut T::Handle>,
    p_vfs: Option<&T>,
    buf: &[u8],
    i_amt: i32,
    i_ofst: i64,
) -> (rc: i32)
    requires
        p_file is Some && p_vfs is Some && i_amt >= 0 && is_offset(i_ofst) ==> buf@.len() == i_amt,
    ensures
        match (p_file, p_vfs) {
            (Some(handle), Some(vfs)) => if i_amt < 0 || !is_offset(i_ofst) {
                rc == vars::SQLITE_IOERR_WRITE && *final(handle) == *handle
            } else {
                exists|h: &mut T::Handle, answer: VfsResult<usize>|
                    {
                        &&& *h == *handle
                        &&& *final(h) == *final(handle)
                        &&& #[trigger] call_ensures(
                            T::write,
                            (vfs, h, i_ofst as usize, buf),
                            answer,
                        )
                        &&& rc == vfs::code_of(write_outcome(answer, i_amt as int))
                    }
            },
            (Some(handle), None) => rc == vars::SQLITE_INTERNAL && *final(handle) == *handle,
            (None, _) => rc == vars::SQLITE_INTERNAL,
        },
{
    match (p_file, p_vfs) {
        (Some(handle), Some(vfs)) => {
            let (len, offset): (usize, usize) = match (
                to_length(i_amt, vars::SQLITE_IOERR_WRITE),
                to_offset(i_ofst, vars::SQLITE_IOERR_WRITE),
            ) {
                (Ok(len), Ok(offset)) => (len, offset),
                _ => return vars::SQLITE_IOERR_WRITE,
            };
            fallible(write_reply(vfs.write(handle, offset, buf), len))
        },
        _ => vars::SQLITE_INTERNAL,
    }
}

/// A write succeeds exactly when the VFS took all the bytes.
pub proof fn law_write_is_all_or_error(answer: VfsResult<usize>, len: int)
    ensures
        write_outcome(answer, len) is Ok <==> answer == Ok::<usize, SqliteErr>(len as usize) && 0
            <= len <= usize::MAX,
        answer is Err ==> write_outcome(answer, len) == Err::<i32, SqliteErr>(answer->Err_0),
        answer matches Ok(n) && n < len ==> write_outcome(answer, len) == Err::<i32, SqliteErr>(
            vars::SQLITE_IOERR_WRITE,
        ),
{
}

/// Where the reads of a VFS give back what its writes took, and its writes do not
/// fail with `SQLITE_OK`, SQLite reads the bytes that it wrote: the read that follows
/// a successful write of `data`, at the same offset and of the same length, succeeds
/// and fills the buffer with `data`.
pub proof fn law_read_gives_back_what_was_written<T: Vfs>(
    vfs: &T,
    written: &mut T::Handle,
    data: &[u8],
    read: &mut T::Handle,
    buf: &mut [u8],
    i_amt: i32,
    i_ofst: i64,
    wrote: i32,
    rc: i32,
)
    requires
        forall|
            w: &mut T::Handle,
            offset: usize,
            bytes: &[u8],
            n: VfsResult<usize>,
            r: &mut T::Handle,
            into: &mut [u8],
            answer: VfsResult<usize>,
        |
            {
                &&& #[trigger] call_ensures(T::write, (vfs, w, offset, bytes), n)
                &&& n matches Ok(taken) && taken == bytes@.len()
                &&& *r == *final(w)
                &&& into@.len() == bytes@.len()
                &&& #[trigger] call_ensures(T::read, (vfs, r, offset, into), answer)
            } ==> answer is Ok && final(into)@ == bytes@,
        forall|w: &mut T::Handle, offset: usize, bytes: &[u8], n: VfsResult<usize>|
            #[trigger] call_ensures(T::write, (vfs, w, offset, bytes), n) ==> n != Err::<
                usize,
                SqliteErr,
            >(vars::SQLITE_OK),
        data@.len() == i_amt,
        buf@.len() == i_amt,
        call_ensures(x_write::<T>, (Some(written), Some(vfs), data, i_amt, i_ofst), wrote),
        wrote == vars::SQLITE_OK,
        *read == *final(written),
        call_ensures(x_read::<T>, (Some(read), Some(vfs), buf, i_amt, i_ofst), rc),
    ensures
        rc == vars::SQLITE_OK,
        final(buf)@ == data@,
{
}

/// Cuts a file to `size` bytes, or extends it.
pub fn x_truncate<T: Vfs>(p_file: Option<&mut T::Handle>, p_vfs: Option<&T>, size: i64) -> (rc: i32)
    ensures
        match (p_file, p_vfs) {
            (Some(handle), Some(vfs)) => if !is_offset(size) {
                rc == vars::SQLITE_IOERR_TRUNCATE && *final(handle) == *handle
            } else {
                exists|h: &mut T::Handle, answer: VfsResult<()>|
                    {
                        &&& *h == *handle
                        &&& *final(h) == *final(handle)
                        &&& #[trigger] call_ensures(T::truncate, (vfs, h, size as usize), answer)
                        &&& rc == vfs::status(answer)
                    }
            },
            (Some(handle), None) => rc == vars::SQLITE_INTERNAL && *final(handle) == *handle,
            (None, _) => rc == vars::SQLITE_INTERNAL,
        },
{
    match (p_file, p_vfs) {
        (Some(handle), Some(vfs)) => match to_offset(size, vars::SQLITE_IOERR_TRUNCATE) {
            Ok(bytes) => fallible(done(vfs.truncate(handle, bytes))),
            Err(err) => err,
        },
        _ => vars::SQLITE_INTERNAL,
    }
}

/// Makes what was written durable.
pub fn x_sync<T: Vfs>(p_file: Option<&mut T::Handle>, p_vfs: Option<&T>) -> (rc: i32)
    ensures
        match (p_file, p_vfs) {
            (Some(handle), Some(vfs)) => exists|h: &mut T::Handle, answer: VfsResult<()>|
                {
                    &&& *h == *handle
                    &&& *final(h) == *final(handle)
                    &&& #[trigger] call_ensures(T::sync, (vfs, h), answer)
                    &&& rc == vfs::status(answer)
                },
            (Some(handle), None) => rc == vars::SQLITE_INTERNAL && *final(handle) == *handle,
            (None, _) => rc == vars::SQLITE_INTERNAL,
        },
{
    match (p_file, p_vfs) {
        (Some(handle), Some(vfs)) => fallible(done(vfs.sync(handle))),
        _ => vars::SQLITE_INTERNAL,
    }
}

/// Passes on the size of a file.
pub fn file_size_reply(answer: VfsResult<usize>, p_size: Option<&mut i64>) -> (outcome: VfsResult<
    i32,
>)
    ensures
        match (answer, p_size) {
            (Err(err), None) => outcome == Err::<i32, SqliteErr>(err),
            (Err(err), Some(out)) => outcome == Err::<i32, SqliteErr>(err) && *final(out) == *out,
            (Ok(_), None) => outcome == Err::<i32, SqliteErr>(vars::SQLITE_INTERNAL),
            (Ok(size), Some(out)) => if size <= i64::MAX {
                outcome == Ok::<i32, SqliteErr>(vars::SQLITE_OK) && *final(out) == size
            } else {
                outcome == Err::<i32, SqliteErr>(vars::SQLITE_IOERR_FSTAT) && *final(out) == *out
            },
        },
{
    let size: usize = answer?;
    match p_size {
        None => Err(vars::SQLITE_INTERNAL),
        Some(out) => match i64::try_from(size) {
            Ok(signed) => {
                *out = signed;
                Ok(vars::SQLITE_OK)
            },
            Err(_) => Err(vars::SQLITE_IOERR_FSTAT),
        },
    }
}

/// Asks for the size of a file.
pub fn x_file_size<T: Vfs>(
    p_file: Option<&mut T::Handle>,
    p_vfs: Option<&T>,
    p_size: Option<&mut i64>,
) -> (rc: i32)
    ensures
        match (p_file, p_vfs) {
            (Some(handle), Some(vfs)) => exists|h: &mut T::Handle, answer: VfsResult<usize>|
                {
                    &&& *h == *handle
                    &&& *final(h) == *final(handle)
                    &&& #[trigger] call_ensures(T::file_size, (vfs, h), answer)
                    &&& match (answer, p_size) {
                        (Err(err), None) => rc == err,
                        (Err(err), Some(out)) => rc == err && *final(out) == *out,
                        (Ok(_), None) => rc == vars::SQLITE_INTERNAL,
                        (Ok(size), Some(out)) => if size <= i64::MAX {
                            rc == vars::SQLITE_OK && *final(out) == size
                        } else {
                            rc == vars::SQLITE_IOERR_FSTAT && *final(out) == *out
                        },
                    }
                },
            (Some(handle), None) => {
                &&& rc == vars::SQLITE_INTERNAL
                &&& *final(handle) == *handle
                &&& p_size matches Some(out) ==> *final(out) == *out
            },
            (None, _) => {
                &&& rc == vars::SQLITE_INTERNAL
                &&& p_size matches Some(out) ==> *final(out) == *out
            },
        },
{
    match (p_file, p_vfs) {
        (Some(handle), Some(vfs)) => fallible(file_size_reply(vfs.file_size(handle), p_size)),
        _ => vars::SQLITE_INTERNAL,
    }
}

/// Raises the lock on a file.
pub fn x_lock<T: Vfs>(p_file: Option<&mut T::Handle>, p_vfs: Option<&T>, raw_lock: i32) -> (rc: i32)
    ensures
        match (p_file, p_vfs) {
            (Some(handle), Some(vfs)) => exists|h: &mut T::Handle, answer: VfsResult<()>|
                {
                    &&& *h == *handle
                    &&& *final(h) == *final(handle)
                    &&& #[trigger] call_ensures(
                        T::lock,
                        (vfs, h, flags::lock_level_of(raw_lock)),
                        answer,
                    )
                    &&& rc == vfs::status(answer)
                },
            (Some(handle), None) => rc == vars::SQLITE_INTERNAL && *final(handle) == *handle,
            (None, _) => rc == vars::SQLITE_INTERNAL,
        },
{
    let level = LockLevel::from(raw_lock);
    match (p_file, p_vfs) {
        (Some(handle), Some(vfs)) => fallible(done(vfs.lock(handle, level))),
        _ => vars::SQLITE_INTERNAL,
    }
}

/// Lowers the lock on a file.
pub fn x_unlock<T: Vfs>(p_file: Option<&mut T::Handle>, p_vfs: Option<&T>, raw_lock: i32) -> (rc:
    i32)
    ensures
        match (p_file, p_vfs) {
            (Some(handle), Some(vfs)) => exists|h: &mut T::Handle, answer: VfsResult<()>|
                {
                    &&& *h == *handle
                    &&& *final(h) == *final(handle)
                    &&& #[trigger] call_ensures(
                        T::unlock,
                        (vfs, h, flags::lock_level_of(raw_lock)),
                        answer,
                    )
                    &&& rc == vfs::status(answer)
                },
            (Some(handle), None) => rc == vars::SQLITE_INTERNAL && *final(handle) == *handle,
            (None, _) => rc == vars::SQLITE_INTERNAL,
        },
{
    let level = LockLevel::from(raw_lock);
    match (p_file, p_vfs) {
        (Some(handle), Some(vfs)) => fallible(done(vfs.unlock(handle, level))),
        _ => vars::SQLITE_INTERNAL,
    }
}

/// Passes on whether anyone holds a reserved lock.
pub fn reserved_lock_reply(answer: VfsResult<bool>, p_out: &mut i32) -> (outcome: VfsResult<i32>)
    ensures
        outcome == vfs::done_spec(answer),
        *final(p_out) == match answer {
            Ok(held) => flags::bool_code(held),
            Err(_) => *old(p_out),
        },
{
    let held = answer?;
    *p_out = int_of(held);
    Ok(vars::SQLITE_OK)
}

/// Asks whether anyone holds a reserved lock on a file.
pub fn x_check_reserved_lock<T: Vfs>(
    p_file: Option<&mut T::Handle>,
    p_vfs: Option<&T>,
    p_out: &mut i32,
) -> (rc: i32)
    ensures
        match (p_file, p_vfs) {
            (Some(handle), Some(vfs)) => exists|h: &mut T::Handle, answer: VfsResult<bool>|
                {
                    &&& *h == *handle
                    &&& *final(h) == *final(handle)
                    &&& #[trigger] call_ensures(T::check_reserved_lock, (vfs, h), answer)
                    &&& rc == vfs::status(answer)
                    &&& *final(p_out) == match answer {
                        Ok(held) => flags::bool_code(held),
                        Err(_) => *old(p_out),
                    }
                },
            (Some(handle), None) => {
                &&& rc == vars::SQLITE_INTERNAL
                &&& *final(handle) == *handle
                &&& *final(p_out) == *old(p_out)
            },
            (None, _) => rc == vars::SQLITE_INTERNAL && *final(p_out) == *old(p_out),
        },
{
    match (p_file, p_vfs) {
        (Some(handle), Some(vfs)) => fallible(
            reserved_lock_reply(vfs.check_reserved_lock(handle), p_out),
        ),
        _ => vars::SQLITE_INTERNAL,
    }
}

/// Asks for the sector size of the device below a file. The answer is the
/// number itself: an error code goes back the same way.
pub fn x_sector_size<T: Vfs>(p_file: Option<&mut T::Handle>, p_vfs: Option<&T>) -> (rc: i32)
    ensures
        match (p_file, p_vfs) {
            (Some(handle), Some(vfs)) => exists|h: &mut T::Handle, answer: VfsResult<i32>|
                {
                    &&& *h == *handle
                    &&& *final(h) == *final(handle)
                    &&& #[trigger] call_ensures(T::sector_size, (vfs, h), answer)
                    &&& rc == vfs::code_of(answer)
                },
            (Some(handle), None) => rc == vars::SQLITE_INTERNAL && *final(handle) == *handle,
            (None, _) => rc == vars::SQLITE_INTERNAL,
        },
{
    match (p_file, p_vfs) {
        (Some(handle), Some(vfs)) => fallible(vfs.sector_size(handle)),
        _ => vars::SQLITE_INTERNAL,
    }
}

/// Asks what the device below a file promises. The answer is the number itself:
/// an error code goes back the same way.
pub fn x_device_characteristics<T: Vfs>(p_file: Option<&mut T::Handle>, p_vfs: Option<&T>) -> (rc:
    i32)
    ensures
        match (p_file, p_vfs) {
            (Some(handle), Some(vfs)) => exists|h: &mut T::Handle, answer: VfsResult<i32>|
                {
                    &&& *h == *handle
                    &&& *final(h) == *final(handle)
                    &&& #[trigger] call_ensures(T::device_characteristics, (vfs, h), answer)
                    &&& rc == vfs::code_of(answer)
                },
            (Some(handle), None) => rc == vars::SQLITE_INTERNAL && *final(handle) == *handle,
            (None, _) => rc == vars::SQLITE_INTERNAL,
        },
{
    match (p_file, p_vfs) {
        (Some(handle), Some(vfs)) => fallible(vfs.device_characteristics(handle)),
        _ => vars::SQLITE_INTERNAL,
    }
}

/// Every offset from zero up that this machine can hold is accepted, as that very
/// number; any other is refused with the given code.
pub proof fn law_offsets_are_kept(i_ofst: i64, err: SqliteErr, offset: VfsResult<usize>)
    requires
        call_ensures(to_offset, (i_ofst, err), offset),
    ensures
        offset is Ok <==> 0 <= i_ofst && i_ofst <= usize::MAX,
        offset matches Ok(number) ==> number == i_ofst,
        offset matches Err(code) ==> code == err,
{
}

/// Every length from zero up is accepted, as that very number; a negative one is
/// refused with the given code.
pub proof fn law_lengths_are_kept(i_amt: i32, err: SqliteErr, length: VfsResult<usize>)
    requires
        call_ensures(to_length, (i_amt, err), length),
    ensures
        length is Ok <==> 0 <= i_amt,
        length matches Ok(number) ==> number == i_amt,
        length matches Err(code) ==> code == err,
{
}

/// A file that is there is handed to its VFS to be closed. What the VFS answers goes
/// back, and the method table goes exactly where it answered that the file is closed.
pub proof fn law_close_reaches_the_vfs<T: Vfs, M>(
    handle: T::Handle,
    vfs: &T,
    p_methods: &mut Option<M>,
    rc: i32,
)
    requires
        call_ensures(x_close::<T, M>, (Some(handle), Some(vfs), p_methods), rc),
    ensures
        exists|answer: VfsResult<()>|
            {
                &&& #[trigger] call_ensures(T::close, (vfs, handle), answer)
                &&& answer is Ok ==> rc == 0 && *final(p_methods) is None
                &&& answer matches Err(err) ==> rc == err && *final(p_methods) == *old(p_methods)
            },
{
}

/// A close without a file or a VFS is an internal error, and the method table stays.
pub proof fn law_close_needs_file_and_vfs<T: Vfs, M>(
    p_file: Option<T::Handle>,
    p_vfs: Option<&T>,
    p_methods: &mut Option<M>,
    rc: i32,
)
    requires
        p_file is None || p_vfs is None,
        call_ensures(x_close::<T, M>, (p_file, p_vfs, p_methods), rc),
    ensures
        rc == 2,
        *final(p_methods) == *old(p_methods),
{
}

/// A read of any length, at any offset that this machine can hold, is the VFS's to
/// answer: it gets the handle, that offset and the buffer, and its answer goes back.
pub proof fn law_read_reaches_the_vfs<T: Vfs>(
    handle: &mut T::Handle,
    vfs: &T,
    buf: &mut [u8],
    i_amt: i32,
    i_ofst: i64,
    rc: i32,
)
    requires
        0 <= i_amt,
        0 <= i_ofst,
        i_ofst <= usize::MAX,
        call_ensures(x_read::<T>, (Some(handle), Some(vfs), buf, i_amt, i_ofst), rc),
    ensures
        exists|h: &mut T::Handle, data: &mut [u8], answer: VfsResult<usize>|
            {
                &&& #[trigger] call_ensures(T::read, (vfs, h, i_ofst as usize, data), answer)
                &&& *h == *old(handle) && *final(h) == *final(handle)
                &&& data@ == old(buf)@ && final(data)@ == final(buf)@
                &&& rc == match answer {
                    Ok(_) => 0i32,
                    Err(err) => err,
                }
            },
{
}

/// A read that cannot be put to the VFS changes nothing: it is an internal error where
/// the file or its VFS is missing, and otherwise a read error.
pub proof fn law_refused_read_changes_nothing<T: Vfs>(
    p_file: Option<&mut T::Handle>,
    p_vfs: Option<&T>,
    buf: &mut [u8],
    i_amt: i32,
    i_ofst: i64,
    rc: i32,
)
    requires
        p_file is None || p_vfs is None || i_amt < 0 || i_ofst < 0 || i_ofst > usize::MAX,
        call_ensures(x_read::<T>, (p_file, p_vfs, buf, i_amt, i_ofst), rc),
    ensures
        p_file is None || p_vfs is None ==> rc == 2,
        p_file is Some && p_vfs is Some ==> rc == 266,
        final(buf)@ == old(buf)@,
        p_file matches Some(handle) ==> *final(handle) == *handle,
{
}

/// A write of any length, at any offset that this machine can hold, is the VFS's to
/// answer: it gets the handle, that offset and the bytes. SQLite is told of success
/// exactly where the VFS took all the bytes, of a write error where it took another
/// number of them, and otherwise of the VFS's own error.
pub proof fn law_write_reaches_the_vfs<T: Vfs>(
    handle: &mut T::Handle,
    vfs: &T,
    buf: &[u8],
    i_amt: i32,
    i_ofst: i64,
    rc: i32,
)
    requires
        0 <= i_amt,
        0 <= i_ofst,
        i_ofst <= usize::MAX,
        call_ensures(x_write::<T>, (Some(handle), Some(vfs), buf, i_amt, i_ofst), rc),
    ensures
        exists|h: &mut T::Handle, answer: VfsResult<usize>|
            {
                &&& #[trigger] call_ensures(T::write, (vfs, h, i_ofst as usize, buf), answer)
                &&& *h == *old(handle) && *final(h) == *final(handle)
                &&& answer matches Ok(n) ==> (if n == i_amt {
                    rc == 0
                } else {
                    rc == 778
                })
                &&& answer matches Err(err) ==> rc == err
            },
{
}

/// A write that cannot be put to the VFS changes nothing: it is an internal error where
/// the file or its VFS is missing, and otherwise a write error.
pub proof fn law_refused_write_changes_nothing<T: Vfs>(
    p_file: Option<&mut T::Handle>,
    p_vfs: Option<&T>,
    buf: &[u8],
    i_amt: i32,
    i_ofst: i64,
    rc: i32,
)
    requires
        p_file is None || p_vfs is None || i_amt < 0 || i_ofst < 0 || i_ofst > usize::MAX,
        call_ensures(x_write::<T>, (p_file, p_vfs, buf, i_amt, i_ofst), rc),
    ensures
        p_file is None || p_vfs is None ==> rc == 2,
        p_file is Some && p_vfs is Some ==> rc == 778,
        p_file matches Some(handle) ==> *final(handle) == *handle,
{
}

/// The outcome of a write tells whether all of the bytes were taken.
pub proof fn law_write_reply_counts_the_bytes(
    answer: VfsResult<usize>,
    len: usize,
    outcome: VfsResult<i32>,
)
    requires
        call_ensures(write_reply, (answer, len), outcome),
    ensures
        outcome is Ok <==> answer == Ok::<usize, SqliteErr>(len),
        outcome matches Ok(code) ==> code == 0,
        answer matches Ok(n) ==> (outcome matches Err(code) ==> code == 778),
        answer matches Err(err) ==> outcome == Err::<i32, SqliteErr>(err),
{
}

/// Every size from zero up that this machine can hold reaches the VFS as that number,
/// and the VFS's answer goes back.
pub proof fn law_truncate_reaches_the_vfs<T: Vfs>(
    handle: &mut T::Handle,
    vfs: &T,
    size: i64,
    rc: i32,
)
    requires
        0 <= size,
        size <= usize::MAX,
        call_ensures(x_truncate::<T>, (Some(handle), Some(vfs), size), rc),
    ensures
        exists|h: &mut T::Handle, answer: VfsResult<()>|
            {
                &&& #[trigger] call_ensures(T::truncate, (vfs, h, size as usize), answer)
                &&& *h == *old(handle) && *final(h) == *final(handle)
                &&& rc == match answer {
                    Ok(_) => 0i32,
                    Err(err) => err,
                }
            },
{
}

/// A size that cannot be put to the VFS changes nothing: it is an internal error where
/// the file or its VFS is missing, and otherwise a truncate error.
pub proof fn law_refused_truncate_changes_nothing<T: Vfs>(
    p_file: Option<&mut T::Handle>,
    p_vfs: Option<&T>,
    size: i64,
    rc: i32,
)
    requires
        p_file is None || p_vfs is None || size < 0 || size > usize::MAX,
        call_ensures(x_truncate::<T>, (p_file, p_vfs, size), rc),
    ensures
        p_file is None || p_vfs is None ==> rc == 2,
        p_file is Some && p_vfs is Some ==> rc == 1546,
        p_file matches Some(handle) ==> *final(handle) == *handle,
{
}

/// A sync is the VFS's to answer.
pub proof fn law_sync_reaches_the_vfs<T: Vfs>(handle: &mut T::Handle, vfs: &T, rc: i32)
    requires
        call_ensures(x_sync::<T>, (Some(handle), Some(vfs)), rc),
    ensures
        exists|h: &mut T::Handle, answer: VfsResult<()>|
            {
                &&& #[trigger] call_ensures(T::sync, (vfs, h), answer)
                &&& *h == *old(handle) && *final(h) == *final(handle)
                &&& rc == match answer {
                    Ok(_) => 0i32,
                    Err(err) => err,
                }
            },
{
}

/// The size that the VFS reports is the size that SQLite gets, as long as there is a
/// place for it and it is no larger than SQLite's numbers.
pub proof fn law_file_size_goes_back<T: Vfs>(
    handle: &mut T::Handle,
    vfs: &T,
    p_size: Option<&mut i64>,
    rc: i32,
)
    requires
        call_ensures(x_file_size::<T>, (Some(handle), Some(vfs), p_size), rc),
    ensures
        exists|h: &mut T::Handle, answer: VfsResult<usize>|
            {
                &&& #[trigger] call_ensures(T::file_size, (vfs, h), answer)
                &&& *h == *old(handle) && *final(h) == *final(handle)
                &&& answer matches Err(err) ==> rc == err
                &&& answer is Ok && p_size is None ==> rc == 2
                &&& p_size matches Some(out) ==> (answer matches Ok(size) ==> (if size
                    <= 0x7fff_ffff_ffff_ffff {
                    rc == 0 && *final(out) == size
                } else {
                    rc == 1802 && *final(out) == *out
                }))
                &&& p_size matches Some(out) ==> (answer is Err ==> *final(out) == *out)
            },
{
}

/// A lock reaches the VFS at the level that the number names, and the VFS's answer goes
/// back.
pub proof fn law_lock_reaches_the_vfs<T: Vfs>(
    handle: &mut T::Handle,
    vfs: &T,
    raw_lock: i32,
    rc: i32,
)
    requires
        call_ensures(x_lock::<T>, (Some(handle), Some(vfs), raw_lock), rc),
    ensures
        exists|h: &mut T::Handle, level: LockLevel, answer: VfsResult<()>|
            {
                &&& #[trigger] call_ensures(T::lock, (vfs, h, level), answer)
                &&& *h == *old(handle) && *final(h) == *final(handle)
                &&& level is Unlocked <==> raw_lock == 0
                &&& level is Shared <==> raw_lock == 1
                &&& level is Reserved <==> raw_lock == 2
                &&& level is Pending <==> raw_lock == 3
                &&& level is Exclusive <==> raw_lock == 4
                &&& level matches LockLevel::Other(number) ==> number == raw_lock
                &&& rc == match answer {
                    Ok(_) => 0i32,
                    Err(err) => err,
                }
            },
{
    flags::law_lock_levels_have_numbers(raw_lock);
}

/// An unlock reaches the VFS at the level that the number names, and the VFS's answer
/// goes back.
pub proof fn law_unlock_reaches_the_vfs<T: Vfs>(
    handle: &mut T::Handle,
    vfs: &T,
    raw_lock: i32,
    rc: i32,
)
    requires
        call_ensures(x_unlock::<T>, (Some(handle), Some(vfs), raw_lock), rc),
    ensures
        exists|h: &mut T::Handle, level: LockLevel, answer: VfsResult<()>|
            {
                &&& #[trigger] call_ensures(T::unlock, (vfs, h, level), answer)
                &&& *h == *old(handle) && *final(h) == *final(handle)
                &&& level is Unlocked <==> raw_lock == 0
                &&& level is Shared <==> raw_lock == 1
                &&& level is Reserved <==> raw_lock == 2
                &&& level is Pending <==> raw_lock == 3
                &&& level is Exclusive <==> raw_lock == 4
                &&& level matches LockLevel::Other(number) ==> number == raw_lock
                &&& rc == match answer {
                    Ok(_) => 0i32,
                    Err(err) => err,
                }
            },
{
    flags::law_lock_levels_have_numbers(raw_lock);
}

/// Whether anyone holds a reserved lock is the VFS's to answer: yes goes back as one, no
/// as zero, and an error leaves the place for the answer as it is.
pub proof fn law_reserved_lock_goes_back<T: Vfs>(
    handle: &mut T::Handle,
    vfs: &T,
    p_out: &mut i32,
    rc: i32,
)
    requires
        call_ensures(x_check_reserved_lock::<T>, (Some(handle), Some(vfs), p_out), rc),
    ensures
        exists|h: &mut T::Handle, answer: VfsResult<bool>|
            {
                &&& #[trigger] call_ensures(T::check_reserved_lock, (vfs, h), answer)
                &&& *h == *old(handle) && *final(h) == *final(handle)
                &&& answer matches Ok(held) ==> rc == 0 && (held ==> *final(p_out) == 1) && (!held
                    ==> *final(p_out) == 0)
                &&& answer matches Err(err) ==> rc == err && *final(p_out) == *old(p_out)
            },
{
}

/// The sector size that the VFS answers goes back as it is, and so does an error.
pub proof fn law_sector_size_goes_back<T: Vfs>(handle: &mut T::Handle, vfs: &T, rc: i32)
    requires
        call_ensures(x_sector_size::<T>, (Some(handle), Some(vfs)), rc),
    ensures
        exists|h: &mut T::Handle, answer: VfsResult<i32>|
            {
                &&& #[trigger] call_ensures(T::sector_size, (vfs, h), answer)
                &&& *h == *old(handle) && *final(h) == *final(handle)
                &&& answer matches Ok(size) ==> rc == size
                &&& answer matches Err(err) ==> rc == err
            },
{
}

/// The characteristics that the VFS answers go back as they are, and so does an error.
pub proof fn law_device_characteristics_go_back<T: Vfs>(handle: &mut T::Handle, vfs: &T, rc: i32)
    requires
        call_ensures(x_device_characteristics::<T>, (Some(handle), Some(vfs)), rc),
    ensures
        exists|h: &mut T::Handle, answer: VfsResult<i32>|
            {
                &&& #[trigger] call_ensures(T::device_characteristics, (vfs, h), answer)
                &&& *h == *old(handle) && *final(h) == *final(handle)
                &&& answer matches Ok(bits) ==> rc == bits
                &&& answer matches Err(err) ==> rc == err
            },
{
}

/// Without a file or a VFS every other request on a file is an internal error, and
/// changes nothing.
pub proof fn law_requests_need_file_and_vfs<T: Vfs>(
    p_file: Option<&mut T::Handle>,
    p_vfs: Option<&T>,
    raw_lock: i32,
    p_size: Option<&mut i64>,
    p_out: &mut i32,
    rc: i32,
)
    requires
        p_file is None || p_vfs is None,
        ({
            ||| call_ensures(x_sync::<T>, (p_file, p_vfs), rc)
            ||| call_ensures(x_lock::<T>, (p_file, p_vfs, raw_lock), rc)
            ||| call_ensures(x_unlock::<T>, (p_file, p_vfs, raw_lock), rc)
            ||| call_ensures(x_sector_size::<T>, (p_file, p_vfs), rc)
            ||| call_ensures(x_device_characteristics::<T>, (p_file, p_vfs), rc)
            ||| call_ensures(x_file_size::<T>, (p_file, p_vfs, p_size), rc)
            ||| call_ensures(x_check_reserved_lock::<T>, (p_file, p_vfs, p_out), rc)
        }),
    ensures
        rc == 2,
        p_file matches Some(handle) ==> *final(handle) == *handle,
        call_ensures(x_file_size::<T>, (p_file, p_vfs, p_size), rc) ==> (p_size matches Some(out)
            ==> *final(out) == *out),
        call_ensures(x_check_reserved_lock::<T>, (p_file, p_vfs, p_out), rc) ==> *final(p_out)
            == *old(p_out),
{
}

} // verus!

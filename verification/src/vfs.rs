//! The traits that a VFS implements, and what its answers mean to SQLite.

pub use crate::api::SqliteApi;
pub use crate::register::{register_dynamic, register_static, RegisterOpts};

use crate::flags::{AccessFlags, LockLevel, OpenOpts, ShmLockMode};
use crate::vars;
use std::borrow::Cow;
use vstd::prelude::*;

verus! {

/// The minimum supported SQLite version.
pub const MIN_SQLITE_VERSION_NUMBER: i32 = 3043000;

pub const DEFAULT_SECTOR_SIZE: i32 = 4096;

/// What a file system promises unless its VFS says otherwise: writes of any
/// size are atomic; after a crash only bytes that were written can have
/// changed; data is appended before the size grows; and information reaches the
/// disk in the order in which it was written.
pub const DEFAULT_DEVICE_CHARACTERISTICS: i32 = vars::SQLITE_IOCAP_ATOMIC
    | vars::SQLITE_IOCAP_POWERSAFE_OVERWRITE | vars::SQLITE_IOCAP_SAFE_APPEND
    | vars::SQLITE_IOCAP_SEQUENTIAL;

/// A SQLite extended error code.
pub type SqliteErr = i32;

pub type VfsResult<T> = Result<T, SqliteErr>;

/// A pragma that SQLite hands to the VFS: its name, and its argument where it
/// has one.
#[derive(Debug)]
pub struct Pragma<'a> {
    pub name: &'a str,
    pub arg: Option<&'a str>,
}

/// Why a pragma was not carried out.
#[derive(Debug)]
pub enum PragmaErr {
    /// The VFS does not know the pragma; SQLite goes on to its own.
    NotFound,
    /// The pragma failed, with a message where there is one.
    Fail(SqliteErr, Option<String>),
}

impl PragmaErr {
    /// The failure of a pragma that needs an argument and has none.
    pub fn required_arg(p: &Pragma<'_>) -> (err: Self)
        ensures
            err matches PragmaErr::Fail(code, Some(message)) && code == vars::SQLITE_ERROR && message@
                == "argument required (e.g. `pragma "@ + p.name@ + " = ...`)"@,
    {
        let mut message = "argument required (e.g. `pragma ".to_owned();
        message.append(p.name);
        message.append(" = ...`)");
        PragmaErr::Fail(vars::SQLITE_ERROR, Some(message))
    }
}

/// An open file.
pub trait VfsHandle: Send {
    fn readonly(&self) -> bool;

    fn in_memory(&self) -> bool;
}

/// A virtual file system. Nothing is asked of what the methods return; those
/// that have a body do what their `default_ensures` says where an
/// implementation keeps that body.
pub trait Vfs: Send + Sync {
    type Handle: VfsHandle;

    /// How a region of shared memory is referred to, once it is mapped.
    type Region;

    /// Constructs a canonical version of the given path.
    fn canonical_path<'a>(&self, path: Cow<'a, str>) -> (full: VfsResult<Cow<'a, str>>)
        default_ensures
            full == Ok::<Cow<'a, str>, SqliteErr>(path),
    {
        Ok(path)
    }

    fn open(&self, path: Option<&str>, opts: OpenOpts) -> VfsResult<Self::Handle>;

    fn delete(&self, path: &str) -> VfsResult<()>;

    fn access(&self, path: &str, flags: AccessFlags) -> VfsResult<bool>;

    fn file_size(&self, handle: &mut Self::Handle) -> VfsResult<usize>;

    fn truncate(&self, handle: &mut Self::Handle, size: usize) -> VfsResult<()>;

    fn write(&self, handle: &mut Self::Handle, offset: usize, data: &[u8]) -> VfsResult<usize>;

    fn read(&self, handle: &mut Self::Handle, offset: usize, data: &mut [u8]) -> VfsResult<usize>;

    fn lock(&self, handle: &mut Self::Handle, level: LockLevel) -> VfsResult<()>;

    fn unlock(&self, handle: &mut Self::Handle, level: LockLevel) -> VfsResult<()>;

    fn check_reserved_lock(&self, handle: &mut Self::Handle) -> VfsResult<bool>;

    fn sync(&self, handle: &mut Self::Handle) -> (done: VfsResult<()>)
        default_ensures
            done == Ok::<(), SqliteErr>(()),
            *final(handle) == *old(handle),
    {
        Ok(())
    }

    fn close(&self, handle: Self::Handle) -> VfsResult<()>;

    fn pragma(&self, handle: &mut Self::Handle, pragma: Pragma<'_>) -> (answer: Result<
        Option<String>,
        PragmaErr,
    >)
        default_ensures
            answer == Err::<Option<String>, PragmaErr>(PragmaErr::NotFound),
            *final(handle) == *old(handle),
    {
        Err(PragmaErr::NotFound)
    }

    fn sector_size(&self, handle: &mut Self::Handle) -> (size: VfsResult<i32>)
        default_ensures
            size == Ok::<i32, SqliteErr>(DEFAULT_SECTOR_SIZE),
            *final(handle) == *old(handle),
    {
        Ok(DEFAULT_SECTOR_SIZE)
    }

    fn device_characteristics(&self, handle: &mut Self::Handle) -> (characteristics: VfsResult<i32>)
        default_ensures
            characteristics == Ok::<i32, SqliteErr>(DEFAULT_DEVICE_CHARACTERISTICS),
            *final(handle) == *old(handle),
    {
        Ok(DEFAULT_DEVICE_CHARACTERISTICS)
    }

    fn shm_map(
        &self,
        handle: &mut Self::Handle,
        region_idx: usize,
        region_size: usize,
        extend: bool,
    ) -> (region: VfsResult<Option<Self::Region>>)
        default_ensures
            region == Err::<Option<Self::Region>, SqliteErr>(vars::SQLITE_READONLY_CANTINIT),
            *final(handle) == *old(handle),
    {
        Err(vars::SQLITE_READONLY_CANTINIT)
    }

    fn shm_lock(&self, handle: &mut Self::Handle, offset: u32, count: u32, mode: ShmLockMode) -> (done:
        VfsResult<()>)
        default_ensures
            done == Err::<(), SqliteErr>(vars::SQLITE_IOERR),
            *final(handle) == *old(handle),
    {
        Err(vars::SQLITE_IOERR)
    }

    fn shm_barrier(&self, handle: &mut Self::Handle)
        default_ensures
            *final(handle) == *old(handle),
    {
    }

    fn shm_unmap(&self, handle: &mut Self::Handle, delete: bool) -> (done: VfsResult<()>)
        default_ensures
            done == Err::<(), SqliteErr>(vars::SQLITE_IOERR),
            *final(handle) == *old(handle),
    {
        Err(vars::SQLITE_IOERR)
    }
}

/// The number that SQLite gets for an outcome: the value on success, the error
/// code on failure.
pub open spec fn code_of(outcome: VfsResult<i32>) -> i32 {
    match outcome {
        Ok(value) => value,
        Err(err) => err,
    }
}

/// The outcome of a request whose success carries no number of its own.
pub open spec fn done_spec<A>(answer: VfsResult<A>) -> VfsResult<i32> {
    match answer {
        Ok(_) => Ok(vars::SQLITE_OK),
        Err(err) => Err(err),
    }
}

/// The status code for an answer whose value is not passed on.
pub open spec fn status<A>(answer: VfsResult<A>) -> i32 {
    code_of(done_spec(answer))
}

/// SQLite sees success exactly where the VFS succeeded, and otherwise the very code
/// that the VFS failed with. A VFS that fails with `SQLITE_OK` is left out.
pub proof fn law_status_tells_the_answer<A>(answer: VfsResult<A>)
    requires
        answer != Err::<A, SqliteErr>(vars::SQLITE_OK),
    ensures
        status(answer) == vars::SQLITE_OK <==> answer is Ok,
        answer matches Err(err) ==> status(answer) == err,
{
}

/// Turns an outcome into the number that SQLite gets.
pub fn fallible(outcome: VfsResult<i32>) -> (code: i32)
    ensures
        code == code_of(outcome),
{
    match outcome {
        Ok(value) => value,
        Err(err) => err,
    }
}

/// Keeps of an answer only whether it is a failure, and which.
pub fn done<A>(answer: VfsResult<A>) -> (outcome: VfsResult<i32>)
    ensures
        outcome == done_spec(answer),
{
    match answer {
        Ok(_) => Ok(vars::SQLITE_OK),
        Err(err) => Err(err),
    }
}

/// The number that goes to SQLite is the very value of a success, and the very code of
/// a failure; where the value is dropped, a success is zero.
pub proof fn law_numbers_go_back_as_they_are<A>(
    outcome: VfsResult<i32>,
    code: i32,
    answer: VfsResult<A>,
    kept: VfsResult<i32>,
)
    requires
        call_ensures(fallible, (outcome,), code),
        call_ensures(done::<A>, (answer,), kept),
    ensures
        outcome matches Ok(value) ==> code == value,
        outcome matches Err(err) ==> code == err,
        answer is Ok ==> kept == Ok::<i32, SqliteErr>(0),
        answer matches Err(err) ==> kept == Err::<i32, SqliteErr>(err),
        status(answer) == match answer {
            Ok(_) => 0i32,
            Err(err) => err,
        },
{
}

/// The message of a missing argument tells the pragmas apart, and its code is
/// `SQLITE_ERROR`.
pub proof fn law_required_arg_names_the_pragma(
    p: Pragma<'_>,
    q: Pragma<'_>,
    first: PragmaErr,
    second: PragmaErr,
)
    requires
        call_ensures(PragmaErr::required_arg, (&p,), first),
        call_ensures(PragmaErr::required_arg, (&q,), second),
    ensures
        first matches PragmaErr::Fail(code, Some(message)) && code == 1 && {
            &&& message@.len() == 32 + p.name@.len() + 8
            &&& message@.subrange(32, 32 + p.name@.len() as int) == p.name@
            &&& message@.take(32) == "argument required (e.g. `pragma "@
            &&& message@.skip(32 + p.name@.len() as int) == " = ...`)"@
        },
        first matches PragmaErr::Fail(_, Some(a)) ==> (second matches PragmaErr::Fail(_, Some(b))
            ==> (a@ == b@ <==> p.name@ == q.name@)),
{
    reveal_strlit("argument required (e.g. `pragma ");
    reveal_strlit(" = ...`)");
    if let PragmaErr::Fail(_, Some(a)) = first {
        if let PragmaErr::Fail(_, Some(b)) = second {
            assert(a@.subrange(32, 32 + p.name@.len() as int) == p.name@);
            assert(b@.subrange(32, 32 + q.name@.len() as int) == q.name@);
        }
    }
}

} // verus!

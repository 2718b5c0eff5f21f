//! What SQLite's integers mean: open flags, access checks, lock levels,
//! shared-memory lock requests and truth values.

use crate::vars;
use vstd::prelude::*;

verus! {

/// The kind of file that SQLite opens.
#[derive(Debug, Clone, Copy, PartialEq, Eq, Structural)]
pub enum OpenKind {
    MainDb,
    TempDb,
    TransientDb,
    MainJournal,
    TempJournal,
    SubJournal,
    SuperJournal,
    Wal,
    Unknown,
}

/// Whether opening a file may, or must, create it.
#[derive(Debug, Clone, Copy, PartialEq, Eq, Structural)]
pub enum CreateMode {
    /// The file must exist.
    NoCreate,
    /// The file is created if it does not exist.
    Create,
    /// The file must not exist, and is created.
    MustCreate,
}

/// How a file is opened.
#[derive(Debug, Clone, Copy, PartialEq, Eq, Structural)]
pub enum OpenMode {
    ReadOnly,
    ReadWrite { create: CreateMode },
}

/// The flags that SQLite passes when it opens a file.
#[derive(Debug, Clone, Copy, PartialEq, Eq, Structural)]
pub struct OpenOpts {
    pub flags: i32,
}

/// The flag by which SQLite asks for a file of this kind.
pub open spec fn kind_bit(kind: OpenKind) -> i32 {
    match kind {
        OpenKind::MainDb => vars::SQLITE_OPEN_MAIN_DB,
        OpenKind::TempDb => vars::SQLITE_OPEN_TEMP_DB,
        OpenKind::TransientDb => vars::SQLITE_OPEN_TRANSIENT_DB,
        OpenKind::MainJournal => vars::SQLITE_OPEN_MAIN_JOURNAL,
        OpenKind::TempJournal => vars::SQLITE_OPEN_TEMP_JOURNAL,
        OpenKind::SubJournal => vars::SQLITE_OPEN_SUBJOURNAL,
        OpenKind::SuperJournal => vars::SQLITE_OPEN_SUPER_JOURNAL,
        OpenKind::Wal => vars::SQLITE_OPEN_WAL,
        OpenKind::Unknown => 0,
    }
}

/// All the flags that name a kind of file.
pub const OPEN_KIND_MASK: i32 = 0x87f00;

impl OpenOpts {
    /// Whether `flag` is among the flags.
    pub open spec fn has(self, flag: i32) -> bool {
        self.flags & flag != 0
    }

    /// The kind of file: the first kind, in the order in which the variants
    /// stand, whose flag is set.
    pub open spec fn kind_spec(self) -> OpenKind {
        if self.has(vars::SQLITE_OPEN_MAIN_DB) {
            OpenKind::MainDb
        } else if self.has(vars::SQLITE_OPEN_TEMP_DB) {
            OpenKind::TempDb
        } else if self.has(vars::SQLITE_OPEN_TRANSIENT_DB) {
            OpenKind::TransientDb
        } else if self.has(vars::SQLITE_OPEN_MAIN_JOURNAL) {
            OpenKind::MainJournal
        } else if self.has(vars::SQLITE_OPEN_TEMP_JOURNAL) {
            OpenKind::TempJournal
        } else if self.has(vars::SQLITE_OPEN_SUBJOURNAL) {
            OpenKind::SubJournal
        } else if self.has(vars::SQLITE_OPEN_SUPER_JOURNAL) {
            OpenKind::SuperJournal
        } else if self.has(vars::SQLITE_OPEN_WAL) {
            OpenKind::Wal
        } else {
            OpenKind::Unknown
        }
    }

    pub fn kind(&self) -> (kind: OpenKind)
        ensures
            kind == self.kind_spec(),
    {
        if self.flags & vars::SQLITE_OPEN_MAIN_DB != 0 {
            OpenKind::MainDb
        } else if self.flags & vars::SQLITE_OPEN_TEMP_DB != 0 {
            OpenKind::TempDb
        } else if self.flags & vars::SQLITE_OPEN_TRANSIENT_DB != 0 {
            OpenKind::TransientDb
        } else if self.flags & vars::SQLITE_OPEN_MAIN_JOURNAL != 0 {
            OpenKind::MainJournal
        } else if self.flags & vars::SQLITE_OPEN_TEMP_JOURNAL != 0 {
            OpenKind::TempJournal
        } else if self.flags & vars::SQLITE_OPEN_SUBJOURNAL != 0 {
            OpenKind::SubJournal
        } else if self.flags & vars::SQLITE_OPEN_SUPER_JOURNAL != 0 {
            OpenKind::SuperJournal
        } else if self.flags & vars::SQLITE_OPEN_WAL != 0 {
            OpenKind::Wal
        } else {
            OpenKind::Unknown
        }
    }

    pub open spec fn mode_spec(self) -> OpenMode {
        if self.has(vars::SQLITE_OPEN_READONLY) {
            OpenMode::ReadOnly
        } else {
            OpenMode::ReadWrite {
                create: if !self.has(vars::SQLITE_OPEN_CREATE) {
                    CreateMode::NoCreate
                } else if self.has(vars::SQLITE_OPEN_EXCLUSIVE) {
                    CreateMode::MustCreate
                } else {
                    CreateMode::Create
                },
            }
        }
    }

    pub fn mode(&self) -> (mode: OpenMode)
        ensures
            mode == self.mode_spec(),
    {
        if self.flags & vars::SQLITE_OPEN_READONLY != 0 {
            return OpenMode::ReadOnly;
        }
        let create = if self.flags & vars::SQLITE_OPEN_CREATE == 0 {
            CreateMode::NoCreate
        } else if self.flags & vars::SQLITE_OPEN_EXCLUSIVE != 0 {
            CreateMode::MustCreate
        } else {
            CreateMode::Create
        };
        OpenMode::ReadWrite { create }
    }

    /// Whether the file is to be deleted when it is closed.
    pub fn delete_on_close(&self) -> (delete: bool)
        ensures
            delete == self.has(vars::SQLITE_OPEN_DELETEONCLOSE),
    {
        self.flags & vars::SQLITE_OPEN_DELETEONCLOSE != 0
    }
}

impl From<i32> for OpenOpts {
    fn from(flags: i32) -> (opts: OpenOpts) {
        OpenOpts { flags }
    }
}

impl vstd::std_specs::convert::FromSpecImpl<i32> for OpenOpts {
    open spec fn obeys_from_spec() -> bool {
        true
    }

    open spec fn from_spec(flags: i32) -> OpenOpts {
        OpenOpts { flags }
    }
}

/// Where exactly one of the flags that name a kind is set, `kind` is that kind.
pub proof fn law_kind_of_single_flag(opts: OpenOpts, kind: OpenKind)
    requires
        opts.flags & OPEN_KIND_MASK == kind_bit(kind),
    ensures
        opts.kind_spec() == kind,
{
    let flags = opts.flags;
    let bit = kind_bit(kind);
    assert(flags & 0x100i32 == bit & 0x100i32 && flags & 0x200i32 == bit & 0x200i32
        && flags & 0x400i32 == bit & 0x400i32 && flags & 0x800i32 == bit & 0x800i32
        && flags & 0x1000i32 == bit & 0x1000i32 && flags & 0x2000i32 == bit & 0x2000i32
        && flags & 0x4000i32 == bit & 0x4000i32 && flags & 0x80000i32 == bit & 0x80000i32)
        by (bit_vector)
        requires
            flags & 0x87f00i32 == bit,
    ;
    assert(bit == 0x100i32 ==> bit & 0x100i32 != 0) by (bit_vector);
    assert(bit == 0x200i32 ==> bit & 0x100i32 == 0 && bit & 0x200i32 != 0) by (bit_vector);
    assert(bit == 0x400i32 ==> bit & 0x100i32 == 0 && bit & 0x200i32 == 0 && bit & 0x400i32 != 0)
        by (bit_vector);
    assert(bit == 0x800i32 || bit == 0x1000i32 || bit == 0x2000i32 || bit == 0x4000i32 || bit
        == 0x80000i32 || bit == 0 ==> bit & 0x100i32 == 0 && bit & 0x200i32 == 0 && bit & 0x400i32
        == 0) by (bit_vector);
    assert(bit == 0x800i32 ==> bit & 0x800i32 != 0) by (bit_vector);
    assert(bit == 0x1000i32 ==> bit & 0x800i32 == 0 && bit & 0x1000i32 != 0) by (bit_vector);
    assert(bit == 0x2000i32 ==> bit & 0x800i32 == 0 && bit & 0x1000i32 == 0 && bit & 0x2000i32 != 0)
        by (bit_vector);
    assert(bit == 0x4000i32 || bit == 0x80000i32 || bit == 0 ==> bit & 0x800i32 == 0 && bit
        & 0x1000i32 == 0 && bit & 0x2000i32 == 0) by (bit_vector);
    assert(bit == 0x4000i32 ==> bit & 0x4000i32 != 0) by (bit_vector);
    assert(bit == 0x80000i32 ==> bit & 0x4000i32 == 0 && bit & 0x80000i32 != 0) by (bit_vector);
    assert(bit == 0 ==> bit & 0x4000i32 == 0 && bit & 0x80000i32 == 0) by (bit_vector);
}

/// What SQLite asks about a path.
#[derive(Debug, Clone, Copy, PartialEq, Eq, Structural)]
pub enum AccessFlags {
    /// Does the file exist?
    Exists,
    /// Can the file be read and written?
    ReadWrite,
    /// Can the file be read?
    Read,
    /// A number to which SQLite gives no meaning.
    Other(i32),
}

/// The access check that a raw number asks for.
pub open spec fn access_of(flags: i32) -> AccessFlags {
    if flags == vars::SQLITE_ACCESS_EXISTS {
        AccessFlags::Exists
    } else if flags == vars::SQLITE_ACCESS_READWRITE {
        AccessFlags::ReadWrite
    } else if flags == vars::SQLITE_ACCESS_READ {
        AccessFlags::Read
    } else {
        AccessFlags::Other(flags)
    }
}

impl From<i32> for AccessFlags {
    fn from(flags: i32) -> (access: AccessFlags) {
        if flags == vars::SQLITE_ACCESS_EXISTS {
            AccessFlags::Exists
        } else if flags == vars::SQLITE_ACCESS_READWRITE {
            AccessFlags::ReadWrite
        } else if flags == vars::SQLITE_ACCESS_READ {
            AccessFlags::Read
        } else {
            AccessFlags::Other(flags)
        }
    }
}

impl vstd::std_specs::convert::FromSpecImpl<i32> for AccessFlags {
    open spec fn obeys_from_spec() -> bool {
        true
    }

    open spec fn from_spec(flags: i32) -> AccessFlags {
        access_of(flags)
    }
}

/// How strongly a file is locked.
#[derive(Debug, Clone, Copy, PartialEq, Eq, Structural)]
pub enum LockLevel {
    Unlocked,
    Shared,
    Reserved,
    Pending,
    Exclusive,
    /// A number to which SQLite gives no meaning.
    Other(i32),
}

/// The lock level that a raw number names.
pub open spec fn lock_level_of(lock: i32) -> LockLevel {
    if lock == vars::SQLITE_LOCK_NONE {
        LockLevel::Unlocked
    } else if lock == vars::SQLITE_LOCK_SHARED {
        LockLevel::Shared
    } else if lock == vars::SQLITE_LOCK_RESERVED {
        LockLevel::Reserved
    } else if lock == vars::SQLITE_LOCK_PENDING {
        LockLevel::Pending
    } else if lock == vars::SQLITE_LOCK_EXCLUSIVE {
        LockLevel::Exclusive
    } else {
        LockLevel::Other(lock)
    }
}

impl From<i32> for LockLevel {
    fn from(lock: i32) -> (level: LockLevel) {
        if lock == vars::SQLITE_LOCK_NONE {
            LockLevel::Unlocked
        } else if lock == vars::SQLITE_LOCK_SHARED {
            LockLevel::Shared
        } else if lock == vars::SQLITE_LOCK_RESERVED {
            LockLevel::Reserved
        } else if lock == vars::SQLITE_LOCK_PENDING {
            LockLevel::Pending
        } else if lock == vars::SQLITE_LOCK_EXCLUSIVE {
            LockLevel::Exclusive
        } else {
            LockLevel::Other(lock)
        }
    }
}

impl vstd::std_specs::convert::FromSpecImpl<i32> for LockLevel {
    open spec fn obeys_from_spec() -> bool {
        true
    }

    open spec fn from_spec(lock: i32) -> LockLevel {
        lock_level_of(lock)
    }
}

/// No two raw numbers mean the same access check, and no two mean the same
/// lock level: the conversions lose nothing.
pub proof fn law_conversions_are_injective(a: i32, b: i32)
    ensures
        access_of(a) == access_of(b) ==> a == b,
        lock_level_of(a) == lock_level_of(b) ==> a == b,
{
}

/// What SQLite asks of a lock on shared memory.
#[derive(Debug, Clone, Copy, PartialEq, Eq, Structural)]
pub enum ShmLockMode {
    LockShared,
    LockExclusive,
    UnlockShared,
    UnlockExclusive,
}

/// The lock request that raw flags make, or the code by which they are refused.
pub open spec fn shm_lock_mode_of(flags: i32) -> Result<ShmLockMode, i32> {
    if flags == vars::SQLITE_SHM_LOCK | vars::SQLITE_SHM_SHARED {
        Ok(ShmLockMode::LockShared)
    } else if flags == vars::SQLITE_SHM_LOCK | vars::SQLITE_SHM_EXCLUSIVE {
        Ok(ShmLockMode::LockExclusive)
    } else if flags == vars::SQLITE_SHM_UNLOCK | vars::SQLITE_SHM_SHARED {
        Ok(ShmLockMode::UnlockShared)
    } else if flags == vars::SQLITE_SHM_UNLOCK | vars::SQLITE_SHM_EXCLUSIVE {
        Ok(ShmLockMode::UnlockExclusive)
    } else {
        Err(vars::SQLITE_IOERR)
    }
}

impl TryFrom<i32> for ShmLockMode {
    type Error = i32;

    fn try_from(flags: i32) -> (mode: Result<ShmLockMode, i32>) {
        if flags == vars::SQLITE_SHM_LOCK | vars::SQLITE_SHM_SHARED {
            Ok(ShmLockMode::LockShared)
        } else if flags == vars::SQLITE_SHM_LOCK | vars::SQLITE_SHM_EXCLUSIVE {
            Ok(ShmLockMode::LockExclusive)
        } else if flags == vars::SQLITE_SHM_UNLOCK | vars::SQLITE_SHM_SHARED {
            Ok(ShmLockMode::UnlockShared)
        } else if flags == vars::SQLITE_SHM_UNLOCK | vars::SQLITE_SHM_EXCLUSIVE {
            Ok(ShmLockMode::UnlockExclusive)
        } else {
            Err(vars::SQLITE_IOERR)
        }
    }
}

impl vstd::std_specs::convert::TryFromSpecImpl<i32> for ShmLockMode {
    open spec fn obeys_try_from_spec() -> bool {
        true
    }

    open spec fn try_from_spec(flags: i32) -> Result<ShmLockMode, i32> {
        shm_lock_mode_of(flags)
    }
}

/// No two raw numbers make the same lock request.
pub proof fn law_shm_lock_modes_are_distinct(a: i32, b: i32)
    ensures
        shm_lock_mode_of(a) is Ok && shm_lock_mode_of(a) == shm_lock_mode_of(b) ==> a == b,
{
}

/// What an integer means where it stands for a truth value.
pub open spec fn is_set(flag: i32) -> bool {
    flag != 0
}

/// Reads an integer as a truth value.
pub fn truth_of(flag: i32) -> (set: bool)
    ensures
        set == is_set(flag),
{
    flag != 0
}

/// What a truth value is written as.
pub open spec fn bool_code(truth: bool) -> i32 {
    if truth {
        1
    } else {
        0
    }
}

/// Writes a truth value as an integer.
pub fn int_of(truth: bool) -> (code: i32)
    ensures
        code == bool_code(truth),
{
    if truth {
        1
    } else {
        0
    }
}

/// A truth value that is written is read back.
pub proof fn law_truth_survives(truth: bool)
    ensures
        is_set(bool_code(truth)) == truth,
{
}

/// The open mode follows the read-only, create and exclusive bits, and no other.
pub proof fn law_mode_follows_the_bits(opts: OpenOpts, mode: OpenMode)
    requires
        call_ensures(OpenOpts::mode, (&opts,), mode),
    ensures
        mode is ReadOnly <==> opts.flags & 0x1i32 != 0,
        mode matches OpenMode::ReadWrite { create } ==> {
            &&& create is NoCreate <==> opts.flags & 0x4i32 == 0
            &&& create is MustCreate <==> opts.flags & 0x4i32 != 0 && opts.flags & 0x10i32 != 0
        },
{
}

/// Each kind of file is known by its bit: the kind is a kind whose bit is set, and one
/// whose bit comes before it in the order of the variants is not set.
pub proof fn law_kind_follows_the_bits(opts: OpenOpts, kind: OpenKind)
    requires
        call_ensures(OpenOpts::kind, (&opts,), kind),
    ensures
        kind is MainDb <==> opts.flags & 0x100i32 != 0,
        kind is TempDb ==> opts.flags & 0x200i32 != 0,
        kind is TransientDb ==> opts.flags & 0x400i32 != 0,
        kind is MainJournal ==> opts.flags & 0x800i32 != 0,
        kind is TempJournal ==> opts.flags & 0x1000i32 != 0,
        kind is SubJournal ==> opts.flags & 0x2000i32 != 0,
        kind is SuperJournal ==> opts.flags & 0x4000i32 != 0,
        kind is Wal ==> opts.flags & 0x80000i32 != 0,
        opts.flags & 0x200i32 != 0 ==> kind is TempDb || kind is MainDb,
        opts.flags & 0x400i32 != 0 ==> kind is TransientDb || kind is TempDb || kind is MainDb,
        kind is TempJournal ==> opts.flags & 0x800i32 == 0,
        kind is SubJournal ==> opts.flags & 0x800i32 == 0 && opts.flags & 0x1000i32 == 0,
        kind is SuperJournal ==> opts.flags & 0x800i32 == 0 && opts.flags & 0x1000i32 == 0
            && opts.flags & 0x2000i32 == 0,
        kind is Wal ==> opts.flags & 0x800i32 == 0 && opts.flags & 0x1000i32 == 0 && opts.flags
            & 0x2000i32 == 0 && opts.flags & 0x4000i32 == 0,
        kind is Unknown <==> {
            &&& opts.flags & 0x100i32 == 0 && opts.flags & 0x200i32 == 0
            &&& opts.flags & 0x400i32 == 0 && opts.flags & 0x800i32 == 0
            &&& opts.flags & 0x1000i32 == 0 && opts.flags & 0x2000i32 == 0
            &&& opts.flags & 0x4000i32 == 0 && opts.flags & 0x80000i32 == 0
        },
        kind is MainJournal || kind is TempJournal || kind is SubJournal || kind is SuperJournal
            || kind is Wal ==> opts.flags & 0x100i32 == 0 && opts.flags & 0x200i32 == 0
            && opts.flags & 0x400i32 == 0,
{
}

/// A file is deleted on close exactly where that bit is set.
pub proof fn law_delete_on_close_follows_the_bit(opts: OpenOpts, delete: bool)
    requires
        call_ensures(OpenOpts::delete_on_close, (&opts,), delete),
    ensures
        delete <==> opts.flags & 0x8i32 != 0,
{
}

/// Each access check has its number, and a number without a meaning is kept.
pub proof fn law_access_checks_have_numbers(flags: i32)
    ensures
        access_of(flags) is Exists <==> flags == 0,
        access_of(flags) is ReadWrite <==> flags == 1,
        access_of(flags) is Read <==> flags == 2,
        access_of(flags) matches AccessFlags::Other(number) ==> number == flags,
{
}

/// Each lock level has its number, and a number without a meaning is kept.
pub proof fn law_lock_levels_have_numbers(lock: i32)
    ensures
        lock_level_of(lock) is Unlocked <==> lock == 0,
        lock_level_of(lock) is Shared <==> lock == 1,
        lock_level_of(lock) is Reserved <==> lock == 2,
        lock_level_of(lock) is Pending <==> lock == 3,
        lock_level_of(lock) is Exclusive <==> lock == 4,
        lock_level_of(lock) matches LockLevel::Other(number) ==> number == lock,
{
}

/// Each lock request on shared memory has its number, and every other number is
/// refused with `SQLITE_IOERR`.
pub proof fn law_shm_lock_modes_have_numbers(flags: i32)
    ensures
        shm_lock_mode_of(flags) == Ok::<ShmLockMode, i32>(ShmLockMode::UnlockShared) <==> flags == 5,
        shm_lock_mode_of(flags) == Ok::<ShmLockMode, i32>(ShmLockMode::LockShared) <==> flags == 6,
        shm_lock_mode_of(flags) == Ok::<ShmLockMode, i32>(ShmLockMode::UnlockExclusive) <==> flags
            == 9,
        shm_lock_mode_of(flags) == Ok::<ShmLockMode, i32>(ShmLockMode::LockExclusive) <==> flags
            == 10,
        shm_lock_mode_of(flags) matches Err(err) ==> err == 10,
{
    assert(2i32 | 4i32 == 6i32 && 2i32 | 8i32 == 10i32 && 1i32 | 4i32 == 5i32 && 1i32 | 8i32 == 9i32)
        by (bit_vector);
}

/// An integer is a truth value exactly where it is not zero, and a truth value is
/// written as one or zero.
pub proof fn law_truth_is_not_zero(flag: i32, set: bool, truth: bool, code: i32)
    requires
        call_ensures(truth_of, (flag,), set),
        call_ensures(int_of, (truth,), code),
    ensures
        set <==> flag != 0,
        truth ==> code == 1,
        !truth ==> code == 0,
{
}

} // verus!

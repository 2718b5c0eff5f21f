//! SQLite's numbers: result codes, open flags, device characteristics, lock
//! levels and file control operations.

use vstd::prelude::*;

verus! {

pub const SQLITE_OK: i32 = 0;
pub const SQLITE_ERROR: i32 = 1;
pub const SQLITE_INTERNAL: i32 = 2;
pub const SQLITE_NOMEM: i32 = 7;
pub const SQLITE_IOERR: i32 = 10;
pub const SQLITE_NOTFOUND: i32 = 12;
pub const SQLITE_CANTOPEN: i32 = 14;

pub const SQLITE_IOERR_READ: i32 = 266;
pub const SQLITE_IOERR_WRITE: i32 = 778;
pub const SQLITE_IOERR_FSYNC: i32 = 1034;
pub const SQLITE_IOERR_TRUNCATE: i32 = 1546;
pub const SQLITE_IOERR_FSTAT: i32 = 1802;
pub const SQLITE_IOERR_ACCESS: i32 = 3338;
pub const SQLITE_READONLY_CANTINIT: i32 = 1288;

pub const SQLITE_OPEN_READONLY: i32 = 0x1;
pub const SQLITE_OPEN_READWRITE: i32 = 0x2;
pub const SQLITE_OPEN_CREATE: i32 = 0x4;
pub const SQLITE_OPEN_DELETEONCLOSE: i32 = 0x8;
pub const SQLITE_OPEN_EXCLUSIVE: i32 = 0x10;
pub const SQLITE_OPEN_MEMORY: i32 = 0x80;
pub const SQLITE_OPEN_MAIN_DB: i32 = 0x100;
pub const SQLITE_OPEN_TEMP_DB: i32 = 0x200;
pub const SQLITE_OPEN_TRANSIENT_DB: i32 = 0x400;
pub const SQLITE_OPEN_MAIN_JOURNAL: i32 = 0x800;
pub const SQLITE_OPEN_TEMP_JOURNAL: i32 = 0x1000;
pub const SQLITE_OPEN_SUBJOURNAL: i32 = 0x2000;
pub const SQLITE_OPEN_SUPER_JOURNAL: i32 = 0x4000;
pub const SQLITE_OPEN_WAL: i32 = 0x80000;

pub const SQLITE_IOCAP_ATOMIC: i32 = 0x1;
pub const SQLITE_IOCAP_SAFE_APPEND: i32 = 0x200;
pub const SQLITE_IOCAP_SEQUENTIAL: i32 = 0x400;
pub const SQLITE_IOCAP_POWERSAFE_OVERWRITE: i32 = 0x1000;

pub const SQLITE_FCNTL_PRAGMA: i32 = 14;

pub const SQLITE_LOCK_NONE: i32 = 0;
pub const SQLITE_LOCK_SHARED: i32 = 1;
pub const SQLITE_LOCK_RESERVED: i32 = 2;
pub const SQLITE_LOCK_PENDING: i32 = 3;
pub const SQLITE_LOCK_EXCLUSIVE: i32 = 4;

pub const SQLITE_ACCESS_EXISTS: i32 = 0;
pub const SQLITE_ACCESS_READWRITE: i32 = 1;
pub const SQLITE_ACCESS_READ: i32 = 2;

pub const SQLITE_SHM_UNLOCK: i32 = 1;
pub const SQLITE_SHM_LOCK: i32 = 2;
pub const SQLITE_SHM_SHARED: i32 = 4;
pub const SQLITE_SHM_EXCLUSIVE: i32 = 8;

/// The numbers are those of SQLite's interface. An extended code has its primary code as
/// its low byte.
pub proof fn law_numbers_of_the_interface()
    ensures
        SQLITE_OK == 0 && SQLITE_ERROR == 1 && SQLITE_INTERNAL == 2 && SQLITE_NOMEM == 7,
        SQLITE_IOERR == 10 && SQLITE_NOTFOUND == 12 && SQLITE_CANTOPEN == 14,
        SQLITE_IOERR_READ == SQLITE_IOERR + 256 * 1,
        SQLITE_IOERR_WRITE == SQLITE_IOERR + 256 * 3,
        SQLITE_IOERR_FSYNC == SQLITE_IOERR + 256 * 4,
        SQLITE_IOERR_TRUNCATE == SQLITE_IOERR + 256 * 6,
        SQLITE_IOERR_FSTAT == SQLITE_IOERR + 256 * 7,
        SQLITE_IOERR_ACCESS == SQLITE_IOERR + 256 * 13,
        SQLITE_READONLY_CANTINIT == 8 + 256 * 5,
        SQLITE_OPEN_READONLY == 1 && SQLITE_OPEN_READWRITE == 2 && SQLITE_OPEN_CREATE == 4,
        SQLITE_OPEN_DELETEONCLOSE == 8 && SQLITE_OPEN_EXCLUSIVE == 16 && SQLITE_OPEN_MEMORY == 128,
        SQLITE_OPEN_MAIN_DB == 256 && SQLITE_OPEN_TEMP_DB == 512 && SQLITE_OPEN_TRANSIENT_DB == 1024,
        SQLITE_OPEN_MAIN_JOURNAL == 2048 && SQLITE_OPEN_TEMP_JOURNAL == 4096,
        SQLITE_OPEN_SUBJOURNAL == 8192 && SQLITE_OPEN_SUPER_JOURNAL == 16384,
        SQLITE_OPEN_WAL == 524288,
        SQLITE_IOCAP_ATOMIC == 1 && SQLITE_IOCAP_SAFE_APPEND == 512,
        SQLITE_IOCAP_SEQUENTIAL == 1024 && SQLITE_IOCAP_POWERSAFE_OVERWRITE == 4096,
        SQLITE_FCNTL_PRAGMA == 14,
        SQLITE_LOCK_NONE == 0 && SQLITE_LOCK_SHARED == 1 && SQLITE_LOCK_RESERVED == 2,
        SQLITE_LOCK_PENDING == 3 && SQLITE_LOCK_EXCLUSIVE == 4,
        SQLITE_ACCESS_EXISTS == 0 && SQLITE_ACCESS_READWRITE == 1 && SQLITE_ACCESS_READ == 2,
        SQLITE_SHM_UNLOCK == 1 && SQLITE_SHM_LOCK == 2,
        SQLITE_SHM_SHARED == 4 && SQLITE_SHM_EXCLUSIVE == 8,
{
}

} // verus!

use sqlite_plugin::api::SqliteApi;
use sqlite_plugin::base::AppData;
use sqlite_plugin::control::x_file_control;
use sqlite_plugin::files::{
    x_check_reserved_lock, x_close, x_device_characteristics, x_file_size, x_lock, x_read,
    x_sector_size, x_sync, x_truncate, x_unlock, x_write, FileWrapper,
};
use sqlite_plugin::flags::{
    AccessFlags, CreateMode, LockLevel, OpenKind, OpenMode, OpenOpts, ShmLockMode,
};
use sqlite_plugin::paths::{x_access, x_delete, x_full_pathname, x_full_pathname_checked, x_open};
use sqlite_plugin::register::{register_inner, RegisterAction, RegisterEvent, Registration};
use sqlite_plugin::shm::{x_shm_barrier, x_shm_lock, x_shm_map, x_shm_unmap};
use sqlite_plugin::vars;
use sqlite_plugin::vfs::{
    register_static, Pragma, PragmaErr, RegisterOpts, Vfs, VfsHandle, VfsResult,
    DEFAULT_DEVICE_CHARACTERISTICS, DEFAULT_SECTOR_SIZE,
};
use std::borrow::Cow;
use std::sync::Mutex;

const NOMEM_TEXT: &str = "no memory";

struct MemHandle {
    data: Vec<u8>,
    level: LockLevel,
    barriers: usize,
    temporary: bool,
}

impl VfsHandle for MemHandle {
    fn readonly(&self) -> bool {
        false
    }

    fn in_memory(&self) -> bool {
        self.temporary
    }
}

/// Files in memory, and a record of the paths that were asked for.
struct MemVfs {
    paths: Mutex<Vec<String>>,
}

impl MemVfs {
    fn new() -> MemVfs {
        MemVfs { paths: Mutex::new(Vec::new()) }
    }

    fn record(&self, path: &str) {
        self.paths.lock().unwrap().push(path.to_string());
    }

    fn recorded(&self) -> Vec<String> {
        self.paths.lock().unwrap().clone()
    }
}

impl Vfs for MemVfs {
    type Handle = MemHandle;

    type Region = (usize, usize, bool);

    fn canonical_path<'a>(&self, path: Cow<'a, str>) -> VfsResult<Cow<'a, str>> {
        if path == "bad" {
            return Err(vars::SQLITE_CANTOPEN);
        }
        Ok(Cow::Owned("/".to_string() + &path))
    }

    fn open(&self, path: Option<&str>, opts: OpenOpts) -> VfsResult<MemHandle> {
        match path {
            Some("main.db") => {
                assert!(!opts.delete_on_close());
                assert_eq!(opts.kind(), OpenKind::MainDb);
                assert_eq!(opts.mode(), OpenMode::ReadWrite { create: CreateMode::Create });
            }
            Some("main.db-journal") => {
                assert!(!opts.delete_on_close());
                assert_eq!(opts.kind(), OpenKind::MainJournal);
                assert_eq!(opts.mode(), OpenMode::ReadWrite { create: CreateMode::Create });
            }
            Some(path) => {
                self.record(path);
                return Err(vars::SQLITE_CANTOPEN);
            }
            None => {
                assert!(opts.delete_on_close());
                assert_eq!(opts.kind(), OpenKind::TempDb);
            }
        }
        Ok(MemHandle {
            data: Vec::new(),
            level: LockLevel::Unlocked,
            barriers: 0,
            temporary: path.is_none(),
        })
    }

    fn delete(&self, path: &str) -> VfsResult<()> {
        self.record(path);
        if path == "missing" {
            return Err(5898);
        }
        Ok(())
    }

    fn access(&self, path: &str, flags: AccessFlags) -> VfsResult<bool> {
        if path == "broken" {
            return Err(10);
        }
        Ok(path == "main.db" && flags == AccessFlags::Exists)
    }

    fn file_size(&self, handle: &mut MemHandle) -> VfsResult<usize> {
        Ok(handle.data.len())
    }

    fn truncate(&self, handle: &mut MemHandle, size: usize) -> VfsResult<()> {
        handle.data.resize(size, 0);
        Ok(())
    }

    fn write(&self, handle: &mut MemHandle, offset: usize, data: &[u8]) -> VfsResult<usize> {
        if offset > 1000 {
            return Err(13);
        }
        let room = data.len().min(100);
        if handle.data.len() < offset + room {
            handle.data.resize(offset + room, 0);
        }
        handle.data[offset..offset + room].copy_from_slice(&data[..room]);
        Ok(room)
    }

    fn read(&self, handle: &mut MemHandle, offset: usize, data: &mut [u8]) -> VfsResult<usize> {
        if offset > 1000 {
            return Err(522);
        }
        for (i, byte) in data.iter_mut().enumerate() {
            *byte = handle.data.get(offset + i).copied().unwrap_or(0);
        }
        Ok(data.len())
    }

    fn lock(&self, handle: &mut MemHandle, level: LockLevel) -> VfsResult<()> {
        if level == LockLevel::Other(9) {
            return Err(5);
        }
        handle.level = level;
        Ok(())
    }

    fn unlock(&self, handle: &mut MemHandle, level: LockLevel) -> VfsResult<()> {
        handle.level = level;
        Ok(())
    }

    fn check_reserved_lock(&self, handle: &mut MemHandle) -> VfsResult<bool> {
        Ok(handle.level == LockLevel::Reserved)
    }

    fn sync(&self, handle: &mut MemHandle) -> VfsResult<()> {
        if handle.data.is_empty() {
            return Err(vars::SQLITE_IOERR_FSYNC);
        }
        Ok(())
    }

    fn close(&self, handle: MemHandle) -> VfsResult<()> {
        if handle.level == LockLevel::Unlocked {
            Ok(())
        } else {
            Err(4106)
        }
    }

    fn pragma(
        &self,
        _handle: &mut MemHandle,
        pragma: Pragma<'_>,
    ) -> Result<Option<String>, PragmaErr> {
        match (pragma.name, pragma.arg) {
            ("mock_test", None) => Ok(None),
            ("mock_echo", Some(arg)) => Ok(Some(arg.to_string())),
            ("mock_echo", None) => Err(PragmaErr::required_arg(&pragma)),
            ("mock_zero", None) => Ok(Some("a\0b".to_string())),
            ("mock_fail", None) => Err(PragmaErr::Fail(5, None)),
            _ => Err(PragmaErr::NotFound),
        }
    }

    fn shm_map(
        &self,
        _handle: &mut MemHandle,
        region_idx: usize,
        region_size: usize,
        extend: bool,
    ) -> VfsResult<Option<(usize, usize, bool)>> {
        if region_idx == 0 && !extend {
            return Ok(None);
        }
        Ok(Some((region_idx, region_size, extend)))
    }

    fn shm_lock(
        &self,
        handle: &mut MemHandle,
        offset: u32,
        count: u32,
        mode: ShmLockMode,
    ) -> VfsResult<()> {
        if mode == ShmLockMode::LockExclusive {
            return Err(5);
        }
        handle.barriers = (offset + count) as usize;
        Ok(())
    }

    fn shm_barrier(&self, handle: &mut MemHandle) {
        handle.barriers += 1;
    }

    fn shm_unmap(&self, _handle: &mut MemHandle, delete: bool) -> VfsResult<()> {
        if delete {
            Err(2570)
        } else {
            Ok(())
        }
    }
}

/// A VFS that keeps every default.
struct BareVfs {}

impl Vfs for BareVfs {
    type Handle = MemHandle;

    type Region = u8;

    fn open(&self, _path: Option<&str>, _opts: OpenOpts) -> VfsResult<MemHandle> {
        Ok(bare_handle())
    }

    fn delete(&self, _path: &str) -> VfsResult<()> {
        Ok(())
    }

    fn access(&self, _path: &str, _flags: AccessFlags) -> VfsResult<bool> {
        Ok(true)
    }

    fn file_size(&self, _handle: &mut MemHandle) -> VfsResult<usize> {
        Ok(0)
    }

    fn truncate(&self, _handle: &mut MemHandle, _size: usize) -> VfsResult<()> {
        Ok(())
    }

    fn write(&self, _handle: &mut MemHandle, _offset: usize, data: &[u8]) -> VfsResult<usize> {
        Ok(data.len())
    }

    fn read(&self, _handle: &mut MemHandle, _offset: usize, data: &mut [u8]) -> VfsResult<usize> {
        Ok(data.len())
    }

    fn lock(&self, _handle: &mut MemHandle, _level: LockLevel) -> VfsResult<()> {
        Ok(())
    }

    fn unlock(&self, _handle: &mut MemHandle, _level: LockLevel) -> VfsResult<()> {
        Ok(())
    }

    fn check_reserved_lock(&self, _handle: &mut MemHandle) -> VfsResult<bool> {
        Ok(false)
    }

    fn close(&self, _handle: MemHandle) -> VfsResult<()> {
        Ok(())
    }
}

fn bare_handle() -> MemHandle {
    MemHandle { data: Vec::new(), level: LockLevel::Unlocked, barriers: 0, temporary: false }
}

/// The app data of `vfs`, whose open files have the method table "table".
fn app_data(vfs: MemVfs) -> AppData<MemVfs, u32, &'static str, ()> {
    AppData { base_vfs: None, vfs, io_methods: "table", sqlite_api: () }
}

/// A file object of the VFS that SQLite knows as 7.
type MemFile<'a> = FileWrapper<&'a &'static str, i32, MemHandle>;

/// Stands for the call into SQLite: the new buffer is a copy of the argument.
fn copy(_routine: &i32, format: &[u8], argument: &[u8]) -> Option<Vec<u8>> {
    assert_eq!(format, b"%s\0");
    if argument.starts_with(NOMEM_TEXT.as_bytes()) {
        return None;
    }
    Some(argument.to_vec())
}

fn pragma(name: &[u8], arg: Option<&[u8]>) -> (i32, Option<Vec<u8>>) {
    let vfs = MemVfs::new();
    let api = SqliteApi::new_static(0, 0, 0, 0, 0);
    let mut handle = bare_handle();
    let mut text: Option<Vec<u8>> = None;
    let rc = x_file_control(
        Some(&mut handle),
        Some((&vfs, &api)),
        vars::SQLITE_FCNTL_PRAGMA,
        Some(name),
        arg,
        copy,
        &mut text,
    );
    (rc, text)
}

#[test]
fn sanity() {
    let api = SqliteApi::new_static(0, 0, 0, 0, 0);

    let mut registration: Registration<u32, &str> =
        register_static("mock", RegisterOpts { make_default: true }, 40);
    for event in [
        RegisterEvent::Version(3043000),
        RegisterEvent::BaseFound(Some(1)),
        RegisterEvent::AppDataInstalled,
        RegisterEvent::Registered(vars::SQLITE_OK),
    ] {
        registration = register_inner(registration, event);
    }
    assert!(matches!(registration.action(), RegisterAction::Finish(Ok(()))));
    let app = registration.app_data(MemVfs::new(), "table", ());
    let vfs = &app.vfs;

    // `MemVfs::open` holds the options of both files to what they should be
    let mode = vars::SQLITE_OPEN_READWRITE | vars::SQLITE_OPEN_CREATE;
    let mut main: Option<MemFile> = None;
    let flags = mode | vars::SQLITE_OPEN_MAIN_DB;
    let rc = x_open(7, Some(&app), Some(b"main.db"), &mut main, flags, None);
    assert_eq!(rc, vars::SQLITE_OK);
    let mut main = main.unwrap();
    let mut journal: Option<MemFile> = None;
    let flags = mode | vars::SQLITE_OPEN_MAIN_JOURNAL;
    let rc = x_open(7, Some(&app), Some(b"main.db-journal"), &mut journal, flags, None);
    assert_eq!(rc, vars::SQLITE_OK);
    let journal = journal.unwrap();

    let mut text: Option<Vec<u8>> = None;
    let rc = x_file_control(
        Some(&mut main.handle),
        Some((vfs, &api)),
        vars::SQLITE_FCNTL_PRAGMA,
        Some(b"mock_test"),
        None,
        copy,
        &mut text,
    );
    assert_eq!(rc, vars::SQLITE_OK);
    assert_eq!(text, None);

    assert_eq!(x_truncate(Some(&mut main.handle), Some(vfs), 8192), vars::SQLITE_OK);
    assert_eq!(x_write(Some(&mut main.handle), Some(vfs), b"hello", 5, 0), vars::SQLITE_OK);
    assert_eq!(vfs.write(&mut main.handle, 0, b"hello"), Ok(5));
    let mut data = [0xaau8; 8192];
    assert_eq!(x_read(Some(&mut main.handle), Some(vfs), &mut data, 8192, 0), vars::SQLITE_OK);
    assert_eq!(&data[0..5], b"hello");
    assert!(data[5..].iter().all(|byte| *byte == 0));

    let mut methods = Some(journal.methods);
    assert_eq!(x_close(Some(journal.handle), Some(vfs), &mut methods), vars::SQLITE_OK);
    assert_eq!(methods, None);
    methods = Some(main.methods);
    assert_eq!(x_close(Some(main.handle), Some(vfs), &mut methods), vars::SQLITE_OK);
    assert_eq!(methods, None);
    assert_eq!(x_delete(Some(vfs), Some(b"main.db-journal")), vars::SQLITE_OK);
}

#[test]
fn files_are_opened_with_their_options() {
    let app = app_data(MemVfs::new());
    let mut file: Option<MemFile> = None;
    let mut out_flags = 0;
    let flags = vars::SQLITE_OPEN_READWRITE | vars::SQLITE_OPEN_CREATE | vars::SQLITE_OPEN_MAIN_DB;
    let rc = x_open(7, Some(&app), Some(b"main.db"), &mut file, flags, Some(&mut out_flags));
    assert_eq!(rc, vars::SQLITE_OK);
    assert_eq!(out_flags, flags);

    let flags =
        vars::SQLITE_OPEN_READWRITE | vars::SQLITE_OPEN_CREATE | vars::SQLITE_OPEN_MAIN_JOURNAL;
    let mut journal: Option<MemFile> = None;
    let rc = x_open(7, Some(&app), Some(b"main.db-journal"), &mut journal, flags, None);
    assert_eq!(rc, vars::SQLITE_OK);

    let (file, journal) = (file.unwrap(), journal.unwrap());
    assert_eq!(file.vfs, 7);
    assert_eq!(*file.methods, "table");
    assert!(std::ptr::eq(file.methods, &app.io_methods));
    assert!(std::ptr::eq(journal.methods, file.methods));
}

#[test]
fn temporary_file_has_no_name() {
    let app = app_data(MemVfs::new());
    let mut file: Option<MemFile> = None;
    let mut out_flags = 0;
    let flags = vars::SQLITE_OPEN_READWRITE
        | vars::SQLITE_OPEN_CREATE
        | vars::SQLITE_OPEN_TEMP_DB
        | vars::SQLITE_OPEN_DELETEONCLOSE;
    assert_eq!(x_open(7, Some(&app), None, &mut file, flags, Some(&mut out_flags)), 0);
    assert_eq!(out_flags, flags | vars::SQLITE_OPEN_MEMORY);
}

#[test]
fn failed_open_changes_nothing() {
    let app = app_data(MemVfs::new());
    let mut file: Option<MemFile> = None;
    let mut out_flags = 77;
    let rc = x_open(7, Some(&app), Some(b"oth\xffer"), &mut file, 6, Some(&mut out_flags));
    assert_eq!(rc, vars::SQLITE_CANTOPEN);
    assert!(file.is_none());
    assert_eq!(out_flags, 77);
    assert_eq!(app.vfs.recorded(), vec!["oth\u{fffd}er".to_string()]);

    let old = "old table";
    let handle = bare_handle();
    let mut filled: Option<MemFile> = Some(FileWrapper { methods: &old, vfs: 3, handle });
    assert_eq!(x_open(7, Some(&app), Some(b"other"), &mut filled, 6, None), vars::SQLITE_CANTOPEN);
    let none: Option<&AppData<MemVfs, u32, &str, ()>> = None;
    let rc = x_open(7, none, Some(b"main.db"), &mut filled, 6, Some(&mut out_flags));
    assert_eq!(rc, vars::SQLITE_INTERNAL);
    assert_eq!(out_flags, 77);
    let filled = filled.unwrap();
    assert_eq!(*filled.methods, "old table");
    assert_eq!(filled.vfs, 3);
}

#[test]
fn deletes() {
    let vfs = MemVfs::new();
    assert_eq!(x_delete(Some(&vfs), Some(b"main.db")), vars::SQLITE_OK);
    assert_eq!(x_delete(Some(&vfs), Some(b"missing")), 5898);
    assert_eq!(x_delete(Some(&vfs), Some(b"\xc3(")), vars::SQLITE_OK);
    assert_eq!(x_delete(Some(&vfs), None), vars::SQLITE_INTERNAL);
    assert_eq!(x_delete(None::<&MemVfs>, Some(b"main.db")), vars::SQLITE_INTERNAL);
    assert_eq!(vfs.recorded(), vec!["main.db", "missing", "\u{fffd}("]);
}

#[test]
fn access() {
    let vfs = MemVfs::new();
    let mut out = 9;
    assert_eq!(x_access(Some(&vfs), Some(b"main.db"), 0, Some(&mut out)), vars::SQLITE_OK);
    assert_eq!(out, 1);
    assert_eq!(x_access(Some(&vfs), Some(b"main.db"), 1, Some(&mut out)), vars::SQLITE_OK);
    assert_eq!(out, 0);
    out = 9;
    assert_eq!(x_access(Some(&vfs), Some(b"broken"), 0, Some(&mut out)), 10);
    assert_eq!(x_access(Some(&vfs), None, 0, Some(&mut out)), vars::SQLITE_INTERNAL);
    assert_eq!(x_access(None::<&MemVfs>, Some(b"x"), 0, Some(&mut out)), vars::SQLITE_INTERNAL);
    assert_eq!(out, 9);
    assert_eq!(x_access(Some(&vfs), Some(b"x"), 0, None), vars::SQLITE_IOERR_ACCESS);
}

#[test]
fn full_path_names() {
    let vfs = MemVfs::new();
    let mut out = [0xaau8; 10];
    assert_eq!(x_full_pathname(Some(&vfs), Some(b"main.db"), 10, &mut out), vars::SQLITE_OK);
    assert_eq!(&out, b"/main.db\0\xaa");
    assert_eq!(x_full_pathname(Some(&vfs), Some(b"long-main.db"), 10, &mut out), vars::SQLITE_OK);
    assert_eq!(&out, b"/long-mai\0");
    assert_eq!(x_full_pathname(Some(&vfs), Some(b"bad"), 10, &mut out), vars::SQLITE_CANTOPEN);
    assert_eq!(x_full_pathname(Some(&vfs), Some(b"bad"), -1, &mut out), vars::SQLITE_CANTOPEN);
    assert_eq!(x_full_pathname(Some(&vfs), Some(b"x"), -1, &mut out), vars::SQLITE_INTERNAL);
    assert_eq!(x_full_pathname(Some(&vfs), None, 10, &mut out), vars::SQLITE_INTERNAL);
    assert_eq!(
        x_full_pathname(None::<&MemVfs>, Some(b"x"), 10, &mut out),
        vars::SQLITE_INTERNAL
    );
    assert_eq!(&out, b"/long-mai\0");
}

#[test]
fn full_path_name_without_room() {
    let vfs = MemVfs::new();
    let mut none: [u8; 0] = [];
    let bad: Option<&[u8]> = Some(b"bad");
    assert_eq!(x_full_pathname(Some(&vfs), bad, 0, &mut none), vars::SQLITE_CANTOPEN);
    assert_eq!(
        x_full_pathname_checked(Some(&vfs), bad, 0, &mut none),
        Some(vars::SQLITE_CANTOPEN)
    );
    assert_eq!(x_full_pathname_checked(Some(&vfs), Some(b"main.db"), 0, &mut none), None);
    assert_eq!(
        x_full_pathname_checked(Some(&vfs), None, 0, &mut none),
        Some(vars::SQLITE_INTERNAL)
    );
    let mut out = [0xaau8; 4];
    assert_eq!(
        x_full_pathname_checked(Some(&vfs), Some(b"a"), 4, &mut out),
        Some(vars::SQLITE_OK)
    );
    assert_eq!(&out, b"/a\0\xaa");
    assert_eq!(
        x_full_pathname_checked(Some(&vfs), Some(b"b"), -1, &mut out),
        Some(vars::SQLITE_INTERNAL)
    );
    assert_eq!(&out, b"/a\0\xaa");
}

#[test]
fn borrowed_path_stays_borrowed() {
    let vfs = BareVfs {};
    assert!(matches!(vfs.canonical_path(Cow::Borrowed("main.db")), Ok(Cow::Borrowed("main.db"))));
    let owned: Cow<str> = Cow::Owned("main.db".to_string());
    assert!(matches!(vfs.canonical_path(owned), Ok(Cow::Owned(path)) if path == "main.db"));
}

#[test]
fn refused_requests_need_no_buffer() {
    let vfs = MemVfs::new();
    let mut handle = bare_handle();
    assert_eq!(x_read::<MemVfs>(None, Some(&vfs), &mut [], 512, 0), vars::SQLITE_INTERNAL);
    assert_eq!(x_write::<MemVfs>(Some(&mut handle), None, &[], 512, 0), vars::SQLITE_INTERNAL);
    assert_eq!(x_read(Some(&mut handle), Some(&vfs), &mut [], 512, -1), vars::SQLITE_IOERR_READ);
    assert_eq!(x_write(Some(&mut handle), Some(&vfs), &[], 512, -1), vars::SQLITE_IOERR_WRITE);
}

#[test]
fn default_path_comes_back_byte_for_byte() {
    let vfs = BareVfs {};
    let name = "d\u{e9}j\u{e0}.db".as_bytes();
    let mut out = [0xaau8; 16];
    assert_eq!(x_full_pathname(Some(&vfs), Some(name), 16, &mut out), vars::SQLITE_OK);
    assert_eq!(&out[..name.len()], name);
    assert_eq!(out[name.len()], 0);
}

#[test]
fn what_is_written_is_read() {
    let vfs = MemVfs::new();
    let mut handle = bare_handle();
    assert_eq!(x_write(Some(&mut handle), Some(&vfs), b"hello", 5, 8), vars::SQLITE_OK);
    let mut data = [0xaau8; 7];
    assert_eq!(x_read(Some(&mut handle), Some(&vfs), &mut data, 7, 7), vars::SQLITE_OK);
    assert_eq!(&data, b"\0hello\0");
    let mut size: i64 = 0;
    assert_eq!(x_file_size(Some(&mut handle), Some(&vfs), Some(&mut size)), vars::SQLITE_OK);
    assert_eq!(size, 13);
    assert_eq!(x_truncate(Some(&mut handle), Some(&vfs), 9), vars::SQLITE_OK);
    assert_eq!(handle.data, b"\0\0\0\0\0\0\0\0h");
    assert_eq!(x_sync(Some(&mut handle), Some(&vfs)), vars::SQLITE_OK);
}

#[test]
fn writes_can_fail() {
    let vfs = MemVfs::new();
    let mut handle = bare_handle();
    let long = [1u8; 101];
    assert_eq!(x_write(Some(&mut handle), Some(&vfs), &long, 101, 0), vars::SQLITE_IOERR_WRITE);
    assert_eq!(x_write(Some(&mut handle), Some(&vfs), b"a", 1, 1001), 13);
    let before = handle.data.clone();
    assert_eq!(x_write(Some(&mut handle), Some(&vfs), b"", -1, 0), vars::SQLITE_IOERR_WRITE);
    assert_eq!(x_write(Some(&mut handle), Some(&vfs), b"a", 1, -1), vars::SQLITE_IOERR_WRITE);
    assert_eq!(x_write::<MemVfs>(None, Some(&vfs), b"a", 1, 0), vars::SQLITE_INTERNAL);
    assert_eq!(x_write::<MemVfs>(Some(&mut handle), None, b"a", 1, 0), vars::SQLITE_INTERNAL);
    assert_eq!(handle.data, before);
}

#[test]
fn reads_can_fail() {
    let vfs = MemVfs::new();
    let mut handle = bare_handle();
    let mut data = [0xaau8; 2];
    assert_eq!(x_read(Some(&mut handle), Some(&vfs), &mut data, 2, 1001), 522);
    assert_eq!(x_read(Some(&mut handle), Some(&vfs), &mut data, -1, 0), vars::SQLITE_IOERR_READ);
    assert_eq!(x_read(Some(&mut handle), Some(&vfs), &mut data, 2, -1), vars::SQLITE_IOERR_READ);
    assert_eq!(x_read::<MemVfs>(None, Some(&vfs), &mut data, 2, 0), vars::SQLITE_INTERNAL);
    assert_eq!(x_read::<MemVfs>(Some(&mut handle), None, &mut data, 2, 0), vars::SQLITE_INTERNAL);
    assert_eq!(data, [0xaa; 2]);
}

#[test]
fn sizes_and_syncs_can_fail() {
    let vfs = MemVfs::new();
    let mut handle = bare_handle();
    assert_eq!(x_truncate(Some(&mut handle), Some(&vfs), -1), vars::SQLITE_IOERR_TRUNCATE);
    assert_eq!(x_truncate::<MemVfs>(Some(&mut handle), None, 1), vars::SQLITE_INTERNAL);
    assert_eq!(x_sync(Some(&mut handle), Some(&vfs)), vars::SQLITE_IOERR_FSYNC);
    assert_eq!(x_sync::<MemVfs>(None, Some(&vfs)), vars::SQLITE_INTERNAL);
    assert_eq!(x_file_size(Some(&mut handle), Some(&vfs), None), vars::SQLITE_INTERNAL);
    let mut size: i64 = 5;
    assert_eq!(x_file_size::<MemVfs>(None, Some(&vfs), Some(&mut size)), vars::SQLITE_INTERNAL);
    assert_eq!(size, 5);
}

#[test]
fn locks() {
    let vfs = MemVfs::new();
    let mut handle = bare_handle();
    let mut out = 9;
    assert_eq!(x_lock(Some(&mut handle), Some(&vfs), 2), vars::SQLITE_OK);
    assert_eq!(handle.level, LockLevel::Reserved);
    assert_eq!(x_check_reserved_lock(Some(&mut handle), Some(&vfs), &mut out), vars::SQLITE_OK);
    assert_eq!(out, 1);
    assert_eq!(x_unlock(Some(&mut handle), Some(&vfs), 1), vars::SQLITE_OK);
    assert_eq!(handle.level, LockLevel::Shared);
    assert_eq!(x_check_reserved_lock(Some(&mut handle), Some(&vfs), &mut out), vars::SQLITE_OK);
    assert_eq!(out, 0);
    assert_eq!(x_lock(Some(&mut handle), Some(&vfs), 9), 5);
    assert_eq!(x_lock::<MemVfs>(Some(&mut handle), None, 4), vars::SQLITE_INTERNAL);
    assert_eq!(x_unlock::<MemVfs>(None, Some(&vfs), 0), vars::SQLITE_INTERNAL);
    assert_eq!(handle.level, LockLevel::Shared);
    out = 9;
    assert_eq!(
        x_check_reserved_lock::<MemVfs>(None, Some(&vfs), &mut out),
        vars::SQLITE_INTERNAL
    );
    assert_eq!(out, 9);
}

#[test]
fn closes() {
    let vfs = MemVfs::new();
    let mut methods = Some("table");
    let mut locked = bare_handle();
    locked.level = LockLevel::Shared;
    assert_eq!(x_close(Some(locked), Some(&vfs), &mut methods), 4106);
    assert_eq!(methods, Some("table"));
    assert_eq!(x_close::<MemVfs, _>(None, Some(&vfs), &mut methods), vars::SQLITE_INTERNAL);
    assert_eq!(
        x_close::<MemVfs, _>(Some(bare_handle()), None, &mut methods),
        vars::SQLITE_INTERNAL
    );
    assert_eq!(methods, Some("table"));
    assert_eq!(x_close(Some(bare_handle()), Some(&vfs), &mut methods), vars::SQLITE_OK);
    assert_eq!(methods, None);
}

#[test]
fn pragmas() {
    assert_eq!(pragma(b"mock_test", None), (vars::SQLITE_OK, None));
    assert_eq!(
        pragma(b"mock_echo", Some(b"100%s")),
        (vars::SQLITE_OK, Some(b"100%s\0".to_vec()))
    );
    assert_eq!(
        pragma(b"mock_echo", Some(b"\xff")),
        (vars::SQLITE_OK, Some("\u{fffd}\0".as_bytes().to_vec()))
    );
    assert_eq!(
        pragma(b"mock_echo", None),
        (
            vars::SQLITE_ERROR,
            Some(b"argument required (e.g. `pragma mock_echo = ...`)\0".to_vec())
        )
    );
    assert_eq!(pragma(b"mock_fail", None), (5, None));
    assert_eq!(pragma(b"journal_mode", None), (vars::SQLITE_NOTFOUND, None));
}

#[test]
fn pragma_texts_can_fail() {
    assert_eq!(pragma(b"mock_zero", None), (vars::SQLITE_INTERNAL, None));
    assert_eq!(
        pragma(b"mock_echo", Some(NOMEM_TEXT.as_bytes())),
        (vars::SQLITE_NOMEM, None)
    );
}

#[test]
fn file_controls_that_are_refused() {
    let vfs = MemVfs::new();
    let api = SqliteApi::new_static(0, 0, 0, 0, 0);
    let mut handle = bare_handle();
    let mut text: Option<Vec<u8>> = None;
    let name: Option<&[u8]> = Some(b"mock_test");
    let op = vars::SQLITE_FCNTL_PRAGMA;
    let rc = x_file_control(Some(&mut handle), Some((&vfs, &api)), 5, name, None, copy, &mut text);
    assert_eq!(rc, vars::SQLITE_NOTFOUND);
    let rc = x_file_control(Some(&mut handle), Some((&vfs, &api)), op, None, None, copy, &mut text);
    assert_eq!(rc, vars::SQLITE_INTERNAL);
    let rc = x_file_control(None, Some((&vfs, &api)), op, name, None, copy, &mut text);
    assert_eq!(rc, vars::SQLITE_INTERNAL);
    let no_app_data: Option<(&MemVfs, &SqliteApi<i32, i32, i32, i32, i32>)> = None;
    let rc = x_file_control(Some(&mut handle), no_app_data, op, name, None, copy, &mut text);
    assert_eq!(rc, vars::SQLITE_INTERNAL);
    assert_eq!(text, None);
}

#[test]
fn shared_memory() {
    let vfs = MemVfs::new();
    let mut handle = bare_handle();
    let mut page = None;
    assert_eq!(x_shm_map(Some(&mut handle), Some(&vfs), 0, 32768, 0, &mut page), vars::SQLITE_OK);
    assert_eq!(page, Some(None));
    assert_eq!(x_shm_map(Some(&mut handle), Some(&vfs), 1, 32768, 1, &mut page), vars::SQLITE_OK);
    assert_eq!(page, Some(Some((1, 32768, true))));
    assert_eq!(x_shm_map(Some(&mut handle), Some(&vfs), -1, 1, 1, &mut page), vars::SQLITE_IOERR);
    assert_eq!(x_shm_map(Some(&mut handle), Some(&vfs), 1, -1, 1, &mut page), vars::SQLITE_IOERR);
    assert_eq!(
        x_shm_map::<MemVfs>(None, Some(&vfs), 0, 1, 0, &mut page),
        vars::SQLITE_INTERNAL
    );
    assert_eq!(page, Some(Some((1, 32768, true))));

    assert_eq!(x_shm_lock(Some(&mut handle), Some(&vfs), 3, 2, 6), vars::SQLITE_OK);
    assert_eq!(handle.barriers, 5);
    assert_eq!(x_shm_lock(Some(&mut handle), Some(&vfs), 3, 2, 10), 5);
    assert_eq!(x_shm_lock(Some(&mut handle), Some(&vfs), 3, 2, 0), vars::SQLITE_IOERR);
    assert_eq!(x_shm_lock(Some(&mut handle), Some(&vfs), -3, 2, 6), vars::SQLITE_IOERR);
    assert_eq!(x_shm_lock::<MemVfs>(Some(&mut handle), None, 3, 2, 6), vars::SQLITE_INTERNAL);

    x_shm_barrier(Some(&mut handle), Some(&vfs));
    assert_eq!(handle.barriers, 6);
    x_shm_barrier::<MemVfs>(Some(&mut handle), None);
    x_shm_barrier::<MemVfs>(None, Some(&vfs));
    assert_eq!(handle.barriers, 6);

    assert_eq!(x_shm_unmap(Some(&mut handle), Some(&vfs), 0), vars::SQLITE_OK);
    assert_eq!(x_shm_unmap(Some(&mut handle), Some(&vfs), 1), 2570);
    assert_eq!(x_shm_unmap::<MemVfs>(None, Some(&vfs), 0), vars::SQLITE_INTERNAL);
}

#[test]
fn defaults_of_a_vfs() {
    let vfs = BareVfs {};
    let api = SqliteApi::new_static(0, 0, 0, 0, 0);
    let mut handle = bare_handle();
    let mut page: Option<Option<u8>> = None;
    let mut text: Option<Vec<u8>> = None;
    assert_eq!(x_sync(Some(&mut handle), Some(&vfs)), vars::SQLITE_OK);
    assert_eq!(x_sector_size(Some(&mut handle), Some(&vfs)), DEFAULT_SECTOR_SIZE);
    assert_eq!(
        x_device_characteristics(Some(&mut handle), Some(&vfs)),
        DEFAULT_DEVICE_CHARACTERISTICS
    );
    assert_eq!(
        x_shm_map(Some(&mut handle), Some(&vfs), 0, 32768, 0, &mut page),
        vars::SQLITE_READONLY_CANTINIT
    );
    assert_eq!(page, None);
    assert_eq!(x_shm_lock(Some(&mut handle), Some(&vfs), 0, 1, 6), vars::SQLITE_IOERR);
    assert_eq!(x_shm_unmap(Some(&mut handle), Some(&vfs), 0), vars::SQLITE_IOERR);
    x_shm_barrier(Some(&mut handle), Some(&vfs));
    let rc = x_file_control(
        Some(&mut handle),
        Some((&vfs, &api)),
        vars::SQLITE_FCNTL_PRAGMA,
        Some(b"anything"),
        None,
        copy,
        &mut text,
    );
    assert_eq!(rc, vars::SQLITE_NOTFOUND);
    assert_eq!(x_sector_size::<BareVfs>(None, Some(&vfs)), vars::SQLITE_INTERNAL);
    assert_eq!(x_device_characteristics::<BareVfs>(Some(&mut handle), None), vars::SQLITE_INTERNAL);
}

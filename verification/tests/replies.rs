use sqlite_plugin::api::{mprintf_reply, ApiRoutines, SqliteApi};
use sqlite_plugin::base::{self, AppData};
use sqlite_plugin::control::{after_copy, pragma_reply};
use sqlite_plugin::files::{
    close_reply, file_size_reply, reserved_lock_reply, to_length, to_offset, write_reply,
};
use sqlite_plugin::paths::{access_reply, copy_path, full_pathname_reply, open_flags};
use sqlite_plugin::shm::{shm_lock_request, shm_map_reply};
use sqlite_plugin::flags::ShmLockMode;
use sqlite_plugin::vars;
use sqlite_plugin::vfs::{done, fallible, Pragma, PragmaErr, DEFAULT_DEVICE_CHARACTERISTICS};

#[test]
fn required_arg_message() {
    let pragma = Pragma { name: "mock_test", arg: None };
    match PragmaErr::required_arg(&pragma) {
        PragmaErr::Fail(code, Some(message)) => {
            assert_eq!(code, vars::SQLITE_ERROR);
            assert_eq!(message, "argument required (e.g. `pragma mock_test = ...`)");
        }
        other => panic!("unexpected: {:?}", other),
    }
}

#[test]
fn outcomes_become_codes() {
    assert_eq!(fallible(Ok(4096)), 4096);
    assert_eq!(fallible(Err(778)), 778);
    assert_eq!(fallible(done(Ok("anything"))), vars::SQLITE_OK);
    assert_eq!(fallible(done::<u8>(Err(vars::SQLITE_CANTOPEN))), 14);
}

#[test]
fn default_device_characteristics_value() {
    assert_eq!(DEFAULT_DEVICE_CHARACTERISTICS, 0x1601);
}

#[test]
fn open_flags_are_added() {
    assert_eq!(open_flags(0x106, false, false), 0x106);
    assert_eq!(open_flags(0x106, true, false), 0x107);
    assert_eq!(open_flags(0x106, false, true), 0x186);
    assert_eq!(open_flags(0x106, true, true), 0x187);
}

#[test]
fn access_answers() {
    let mut out = 9;
    assert_eq!(access_reply(Ok(true), Some(&mut out)), Ok(vars::SQLITE_OK));
    assert_eq!(out, 1);
    assert_eq!(access_reply(Ok(false), Some(&mut out)), Ok(vars::SQLITE_OK));
    assert_eq!(out, 0);
    assert_eq!(access_reply(Ok(true), None), Err(vars::SQLITE_IOERR_ACCESS));
    out = 9;
    assert_eq!(access_reply(Err(vars::SQLITE_CANTOPEN), Some(&mut out)), Err(vars::SQLITE_CANTOPEN));
    assert_eq!(out, 9);
    assert_eq!(access_reply(Err(vars::SQLITE_CANTOPEN), None), Err(vars::SQLITE_CANTOPEN));
}

#[test]
fn path_is_copied_and_terminated() {
    let mut out = [0xaau8; 8];
    copy_path(b"main", &mut out);
    assert_eq!(&out, b"main\0\xaa\xaa\xaa");
}

#[test]
fn path_that_just_fits() {
    let mut out = [0xaau8; 5];
    copy_path(b"main", &mut out);
    assert_eq!(&out, b"main\0");
}

#[test]
fn long_path_is_cut() {
    let mut out = [0xaau8; 5];
    copy_path(b"main.db", &mut out);
    assert_eq!(&out, b"main\0");
    let mut one = [0xaau8; 1];
    copy_path(b"main.db", &mut one);
    assert_eq!(&one, b"\0");
}

#[test]
fn full_pathname_answers() {
    let mut out = [0xaau8; 4];
    assert_eq!(full_pathname_reply(Ok("/a".into()), 4, &mut out), Ok(vars::SQLITE_OK));
    assert_eq!(&out, b"/a\0\xaa");
    assert_eq!(
        full_pathname_reply(Ok("/b".into()), -1, &mut out),
        Err(vars::SQLITE_INTERNAL)
    );
    assert_eq!(full_pathname_reply(Err(vars::SQLITE_CANTOPEN), 4, &mut out), Err(vars::SQLITE_CANTOPEN));
    assert_eq!(&out, b"/a\0\xaa");
}

#[test]
fn lengths_and_offsets() {
    assert_eq!(to_length(0, 7), Ok(0));
    assert_eq!(to_length(i32::MAX, 7), Ok(2147483647));
    assert_eq!(to_length(-1, 7), Err(7));
    assert_eq!(to_offset(4096, 7), Ok(4096));
    assert_eq!(to_offset(-1, 7), Err(7));
    assert_eq!(to_offset(i64::MIN, 7), Err(7));
}

#[test]
fn method_table_goes_only_when_closed() {
    let mut methods = Some("table");
    assert_eq!(close_reply(Err(10), &mut methods), Err(10));
    assert_eq!(methods, Some("table"));
    assert_eq!(close_reply(Ok(()), &mut methods), Ok(vars::SQLITE_OK));
    assert_eq!(methods, None);
}

#[test]
fn short_write_fails() {
    assert_eq!(write_reply(Ok(5), 5), Ok(vars::SQLITE_OK));
    assert_eq!(write_reply(Ok(0), 0), Ok(vars::SQLITE_OK));
    assert_eq!(write_reply(Ok(4), 5), Err(vars::SQLITE_IOERR_WRITE));
    assert_eq!(write_reply(Ok(6), 5), Err(vars::SQLITE_IOERR_WRITE));
    assert_eq!(write_reply(Err(13), 5), Err(13));
}

#[test]
fn file_size_answers() {
    let mut size: i64 = -1;
    assert_eq!(file_size_reply(Ok(8192), Some(&mut size)), Ok(vars::SQLITE_OK));
    assert_eq!(size, 8192);
    assert_eq!(file_size_reply(Ok(8192), None), Err(vars::SQLITE_INTERNAL));
    assert_eq!(file_size_reply(Err(10), Some(&mut size)), Err(10));
    assert_eq!(size, 8192);
    if usize::BITS == 64 {
        assert_eq!(file_size_reply(Ok(usize::MAX), Some(&mut size)), Err(vars::SQLITE_IOERR_FSTAT));
        assert_eq!(size, 8192);
    }
}

#[test]
fn reserved_lock_answers() {
    let mut out = 9;
    assert_eq!(reserved_lock_reply(Err(10), &mut out), Err(10));
    assert_eq!(out, 9);
    assert_eq!(reserved_lock_reply(Ok(true), &mut out), Ok(vars::SQLITE_OK));
    assert_eq!(out, 1);
    assert_eq!(reserved_lock_reply(Ok(false), &mut out), Ok(vars::SQLITE_OK));
    assert_eq!(out, 0);
}

#[test]
fn shm_regions() {
    let mut page: Option<Option<u8>> = None;
    assert_eq!(shm_map_reply(Err(1288), &mut page), Err(1288));
    assert_eq!(page, None);
    assert_eq!(shm_map_reply(Ok(Some(4)), &mut page), Ok(vars::SQLITE_OK));
    assert_eq!(page, Some(Some(4)));
    assert_eq!(shm_map_reply(Ok(None), &mut page), Ok(vars::SQLITE_OK));
    assert_eq!(page, Some(None));
}

#[test]
fn shm_lock_requests() {
    match shm_lock_request(3, 1, 10) {
        Ok(request) => {
            assert_eq!(request.offset, 3);
            assert_eq!(request.count, 1);
            assert_eq!(request.mode, ShmLockMode::LockExclusive);
        }
        Err(err) => panic!("refused with {}", err),
    }
    assert!(matches!(shm_lock_request(-1, 1, 10), Err(vars::SQLITE_IOERR)));
    assert!(matches!(shm_lock_request(1, -1, 10), Err(vars::SQLITE_IOERR)));
    assert!(matches!(shm_lock_request(1, 1, 0), Err(vars::SQLITE_IOERR)));
}

#[test]
fn pragma_answers() {
    assert_eq!(pragma_reply(Ok(None)), (Ok(vars::SQLITE_OK), None));
    assert_eq!(
        pragma_reply(Ok(Some("on".to_string()))),
        (Ok(vars::SQLITE_OK), Some("on".to_string()))
    );
    assert_eq!(pragma_reply(Err(PragmaErr::NotFound)), (Err(vars::SQLITE_NOTFOUND), None));
    assert_eq!(pragma_reply(Err(PragmaErr::Fail(5, None))), (Err(5), None));
    assert_eq!(
        pragma_reply(Err(PragmaErr::Fail(1, Some("no".to_string())))),
        (Err(1), Some("no".to_string()))
    );
}

#[test]
fn failure_to_copy_comes_first() {
    assert_eq!(after_copy(Ok(0), Ok(())), Ok(0));
    assert_eq!(after_copy(Err(1), Ok(())), Err(1));
    assert_eq!(after_copy(Err(1), Err(vars::SQLITE_NOMEM)), Err(vars::SQLITE_NOMEM));
}

#[test]
fn static_routines() {
    let api = SqliteApi::new_static(1, 2, 3, 4, 5);
    assert_eq!(api.register, 1);
    assert_eq!(api.find, 2);
    assert_eq!(api.mprintf, 3);
    assert_eq!(api.log, 4);
    assert_eq!(api.libversion_number, 5);
}

#[test]
fn dynamic_routines_have_to_be_complete() {
    let routines = |missing: usize| ApiRoutines {
        vfs_register: if missing == 0 { None } else { Some(1) },
        vfs_find: if missing == 1 { None } else { Some(2) },
        mprintf: if missing == 2 { None } else { Some(3) },
        log: if missing == 3 { None } else { Some(4) },
        libversion_number: if missing == 4 { None } else { Some(5) },
    };
    for missing in 0..5 {
        assert!(matches!(
            SqliteApi::new_dynamic(routines(missing)),
            Err(vars::SQLITE_INTERNAL)
        ));
    }
    match SqliteApi::new_dynamic(routines(5)) {
        Ok(api) => {
            assert_eq!(api.register, 1);
            assert_eq!(api.libversion_number, 5);
        }
        Err(err) => panic!("refused with {}", err),
    }
}

#[test]
fn mprintf_copies_the_text_as_it_is() {
    let api = SqliteApi::new_static(0, 0, 3, 0, 0);
    let mut out: Option<(i32, Vec<u8>, Vec<u8>)> = None;
    let outcome = api.mprintf(
        |routine: &i32, format: &[u8], argument: &[u8]| {
            Some((*routine, format.to_vec(), argument.to_vec()))
        },
        "100% done: %d",
        Some(&mut out),
    );
    assert_eq!(outcome, Ok(()));
    assert_eq!(out, Some((3, b"%s\0".to_vec(), b"100% done: %d\0".to_vec())));
}

#[test]
fn mprintf_failures() {
    let api = SqliteApi::new_static(0, 0, 3, 0, 0);
    let mut out = Some(1u8);
    let no_memory = |_: &i32, _: &[u8], _: &[u8]| None;
    assert_eq!(api.mprintf(no_memory, "text", Some(&mut out)), Err(vars::SQLITE_NOMEM));
    assert_eq!(out, Some(1));
    let buffer = |_: &i32, _: &[u8], _: &[u8]| Some(2u8);
    assert_eq!(api.mprintf(buffer, "te\0xt", Some(&mut out)), Err(vars::SQLITE_INTERNAL));
    assert_eq!(out, Some(1));
    assert_eq!(api.mprintf(buffer, "text", None), Ok(()));
}

#[test]
fn mprintf_buffers() {
    let mut out = Some(1u8);
    assert_eq!(mprintf_reply(None, Some(&mut out)), Err(vars::SQLITE_NOMEM));
    assert_eq!(out, Some(1));
    assert_eq!(mprintf_reply(Some(2), Some(&mut out)), Ok(()));
    assert_eq!(out, Some(2));
    assert_eq!(mprintf_reply(Some(3u8), None), Ok(()));
}

fn app_data(base_vfs: Option<i32>) -> AppData<&'static str, i32, (), ()> {
    AppData { base_vfs, vfs: "vfs", io_methods: (), sqlite_api: () }
}

#[test]
fn requests_go_on_to_the_base_vfs() {
    let data = app_data(Some(100));
    let app = Some(&data);
    let path = base::x_dlopen(
        app,
        |found: i32| Some(move |on: i32, path: &str| found + on + path.len() as i32),
        "lib.so",
        0,
    );
    assert_eq!(path, 206);
    let symbol = base::x_dlsym(
        app,
        |_: i32| Some(|on: i32, library: i32, name: &str| Some(on + library + name.len() as i32)),
        4,
        "f",
    );
    assert_eq!(symbol, Some(105));
    let rc = base::x_randomness(app, |_: i32| Some(|on: i32, n: i32, _: &str| on + n), 16, "out");
    assert_eq!(rc, 116);
    let rc = base::x_sleep(app, |_: i32| Some(|on: i32, us: i32| on + us / 1000), 5000);
    assert_eq!(rc, 105);
    let rc = base::x_current_time(app, |_: i32| Some(|on: i32, out: i32| on + out), 6);
    assert_eq!(rc, 106);
    let rc = base::x_current_time_int64(app, |_: i32| Some(|on: i32, out: i32| on - out), 6);
    assert_eq!(rc, 94);
    let mut seen = Vec::new();
    let log = &mut seen;
    base::x_dlerror(
        app,
        move |_: i32| Some(move |on: i32, n: i32, message: &str| log.push((on, n, message.len()))),
        80,
        "bad",
    );
    let log = &mut seen;
    base::x_dlclose(
        app,
        move |_: i32| Some(move |on: i32, library: i32| log.push((on, library, 0))),
        4,
    );
    assert_eq!(seen, vec![(100, 80, 3), (100, 4, 0)]);
}

#[test]
fn requests_that_the_base_vfs_cannot_take() {
    let data = app_data(Some(100));
    let none = app_data(None);
    let no_app: Option<&AppData<&str, i32, (), ()>> = None;
    for app in [Some(&data), Some(&none), no_app] {
        assert_eq!(base::x_dlopen(app, |_: i32| None::<fn(i32, i32) -> i32>, 1, -1), -1);
        assert_eq!(
            base::x_dlsym(app, |_: i32| None::<fn(i32, i32, i32) -> Option<i32>>, 1, 2),
            None
        );
        assert_eq!(base::x_randomness(app, |_: i32| None::<fn(i32, i32, i32) -> i32>, 1, 2), 2);
        assert_eq!(base::x_sleep(app, |_: i32| None::<fn(i32, i32) -> i32>, 1), 2);
        assert_eq!(base::x_current_time(app, |_: i32| None::<fn(i32, i32) -> i32>, 1), 2);
        assert_eq!(base::x_current_time_int64(app, |_: i32| None::<fn(i32, i32) -> i32>, 1), 2);
        base::x_dlerror(app, |_: i32| None::<fn(i32, i32, i32)>, 1, 2);
        base::x_dlclose(app, |_: i32| None::<fn(i32, i32)>, 1);
    }
}

#[test]
fn missing_base_vfs() {
    let none = app_data(None);
    let method = |_: i32| Some(|_: i32, _: i32| 5);
    assert_eq!(base::x_sleep(Some(&none), method, 1), vars::SQLITE_INTERNAL);
    assert_eq!(base::x_dlopen(Some(&none), method, 1, -1), -1);
    assert_eq!(base::unwrap_base_vfs(Some(&none)), Err(vars::SQLITE_INTERNAL));
    assert_eq!(base::unwrap_base_vfs(Some(&app_data(Some(7)))), Ok(7));
}

#[test]
fn base_vfs_is_found_without_a_name() {
    let api = SqliteApi::new_static(0, 21, 0, 0, 0);
    let found = api.find_base(|find: &i32, name: Option<&str>| {
        assert_eq!(name, None);
        Some(*find * 2)
    });
    assert_eq!(found, Some(42));
    assert_eq!(api.find_base(|_: &i32, _: Option<&str>| None::<i32>), None);
}

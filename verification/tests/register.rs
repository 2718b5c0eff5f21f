use sqlite_plugin::api::ApiRoutines;
use sqlite_plugin::register::{
    io_methods, register_dynamic, register_inner, register_static, vfs_methods, RegisterAction,
    RegisterEvent, RegisterOpts, RegisterStage, Registration,
};
use sqlite_plugin::vars;

fn run(
    start: Registration<u32, &'static str>,
    events: &[RegisterEvent<u32>],
) -> Registration<u32, &'static str> {
    let mut registration = start;
    for event in events {
        registration = register_inner(registration, *event);
    }
    registration
}

#[test]
fn file_methods_promise_only_what_is_there() {
    let methods = io_methods();
    assert_eq!(methods.version, 2);
    assert!(methods.x_shm_map && methods.x_shm_lock);
    assert!(methods.x_shm_barrier && methods.x_shm_unmap);
    assert!(!methods.x_fetch && !methods.x_unfetch);
}

#[test]
fn vfs_method_table() {
    let methods = vfs_methods(40);
    assert_eq!(methods.version, 3);
    assert_eq!(methods.sz_os_file, 40);
    assert_eq!(methods.mx_pathname, 512);
    assert!(methods.x_open && methods.x_current_time_int64);
    assert!(!methods.x_get_last_error && !methods.x_set_system_call);
    assert!(!methods.x_get_system_call && !methods.x_next_system_call);
}

#[test]
fn registration_succeeds() {
    let start = register_static("mock", RegisterOpts { make_default: true }, 40);
    assert!(matches!(start.action(), RegisterAction::QueryVersion));
    let found = run(start, &[RegisterEvent::Version(3043000)]);
    assert!(matches!(found.action(), RegisterAction::FindBase));
    let based = run(found, &[RegisterEvent::BaseFound(Some(77))]);
    match based.action() {
        RegisterAction::InstallAppData(methods) => assert_eq!(methods, io_methods()),
        other => panic!("unexpected: {:?}", other),
    }
    let installed = run(based, &[RegisterEvent::AppDataInstalled]);
    match installed.action() {
        RegisterAction::Register { name, methods, make_default } => {
            assert_eq!(name, "mock");
            assert_eq!(methods, vfs_methods(40));
            assert_eq!(make_default, 1);
        }
        other => panic!("unexpected: {:?}", other),
    }
    let registered = run(installed, &[RegisterEvent::Registered(0)]);
    assert!(matches!(registered.action(), RegisterAction::Finish(Ok(()))));
}

#[test]
fn refused_registration_is_cleaned_up() {
    let start = register_static("mock", RegisterOpts { make_default: false }, 40);
    let installed = run(
        start,
        &[RegisterEvent::Version(3050000), RegisterEvent::BaseFound(Some(77)), RegisterEvent::AppDataInstalled],
    );
    assert!(matches!(
        installed.action(),
        RegisterAction::Register { make_default: 0, .. }
    ));
    let refused = run(installed, &[RegisterEvent::Registered(21)]);
    assert!(matches!(refused.action(), RegisterAction::Release));
    let finished = run(refused, &[RegisterEvent::Released]);
    assert!(matches!(finished.action(), RegisterAction::Finish(Err(21))));
}

#[test]
fn old_library_is_not_used() {
    let start = register_static("mock", RegisterOpts { make_default: false }, 40);
    let old = run(start, &[RegisterEvent::Version(3042999)]);
    match old.action() {
        RegisterAction::Panic { minimum, found } => {
            assert_eq!(minimum, 3043000);
            assert_eq!(found, 3042999);
        }
        other => panic!("unexpected: {:?}", other),
    }
    let later = run(old, &[RegisterEvent::Version(3050000), RegisterEvent::Registered(0)]);
    assert!(matches!(later.stage, RegisterStage::TooOld(3042999)));
}

#[test]
fn file_object_can_be_too_large() {
    let start = register_static("mock", RegisterOpts { make_default: false }, 2147483648);
    let finished = run(
        start,
        &[RegisterEvent::Version(3050000), RegisterEvent::BaseFound(Some(77)), RegisterEvent::AppDataInstalled],
    );
    assert!(matches!(finished.action(), RegisterAction::Finish(Err(vars::SQLITE_INTERNAL))));
    let later = run(finished, &[RegisterEvent::Registered(0)]);
    assert!(matches!(later.action(), RegisterAction::Finish(Err(vars::SQLITE_INTERNAL))));
}

#[test]
fn events_out_of_turn_change_nothing() {
    let start = register_static("mock", RegisterOpts { make_default: true }, 40);
    let same = run(
        start,
        &[
            RegisterEvent::Registered(0),
            RegisterEvent::Released,
            RegisterEvent::BaseFound(Some(77)),
            RegisterEvent::AppDataInstalled,
        ],
    );
    assert!(matches!(same.stage, RegisterStage::Version));
    assert!(same.make_default);
    assert_eq!(same.wrapper_size, 40);
}

#[test]
fn dynamic_registration() {
    let complete = ApiRoutines {
        vfs_register: Some(1),
        vfs_find: Some(2),
        mprintf: Some(3),
        log: Some(4),
        libversion_number: Some(5),
    };
    match register_dynamic::<_, _, _, _, _, u32, _>(
        Some(complete),
        "mock",
        RegisterOpts { make_default: true },
        40,
    ) {
        Ok((api, registration)) => {
            assert_eq!(api.register, 1);
            assert_eq!(api.log, 4);
            assert_eq!(registration.name, "mock");
            assert!(registration.make_default);
            assert!(matches!(registration.action(), RegisterAction::QueryVersion));
        }
        Err(err) => panic!("refused with {}", err),
    }
    let incomplete = ApiRoutines {
        vfs_register: Some(1),
        vfs_find: Some(2),
        mprintf: Some(3),
        log: None::<i32>,
        libversion_number: Some(5),
    };
    let opts = RegisterOpts { make_default: true };
    assert!(matches!(
        register_dynamic::<_, _, _, _, _, u32, _>(Some(incomplete), "mock", opts, 40),
        Err(vars::SQLITE_INTERNAL)
    ));
    let opts = RegisterOpts { make_default: true };
    assert!(matches!(
        register_dynamic::<i32, i32, i32, i32, i32, u32, _>(None, "mock", opts, 40),
        Err(vars::SQLITE_INTERNAL)
    ));
}

#[test]
fn app_data_refers_to_the_base_vfs() {
    let start = register_static("mock", RegisterOpts { make_default: true }, 40);
    let based = run(start, &[RegisterEvent::Version(3050000), RegisterEvent::BaseFound(Some(77))]);
    let app_data = based.app_data("vfs", "table", "routines");
    assert_eq!(app_data.base_vfs, Some(77));
    assert_eq!(app_data.vfs, "vfs");
    assert_eq!(app_data.io_methods, "table");
    assert_eq!(app_data.sqlite_api, "routines");
}

#[test]
fn base_vfs_is_looked_up_once() {
    let start = register_static("mock", RegisterOpts { make_default: true }, 40);
    let early = run(start, &[RegisterEvent::BaseFound(Some(1))]);
    assert_eq!(early.base_vfs, None);
    let based = run(early, &[RegisterEvent::Version(3050000), RegisterEvent::BaseFound(Some(77))]);
    let later = run(
        based,
        &[
            RegisterEvent::BaseFound(Some(2)),
            RegisterEvent::AppDataInstalled,
            RegisterEvent::BaseFound(None),
        ],
    );
    assert_eq!(later.base_vfs, Some(77));
    assert!(matches!(later.action(), RegisterAction::Register { make_default: 1, .. }));
}

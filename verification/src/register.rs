//! Registering a VFS with SQLite.
//!
//! A registration is a small state machine. The caller performs the pending
//! [`RegisterAction`], which takes calls into SQLite, and reports what came of it
//! as a [`RegisterEvent`].

use crate::api::{ApiRoutines, SqliteApi};
use crate::base::{self, AppData};
use crate::flags::{self, int_of};
use crate::vars;
use crate::vfs::{SqliteErr, VfsResult, MIN_SQLITE_VERSION_NUMBER};
use vstd::prelude::*;

verus! {

/// The longest path name that SQLite may pass, with its terminator.
pub const DEFAULT_MAX_PATH_LEN: i32 = 512;

pub struct RegisterOpts {
    /// If true, make this vfs the default vfs for SQLite.
    pub make_default: bool,
}

/// The method table of an open file: its version, and which methods are there.
#[derive(Debug, Clone, Copy, PartialEq, Eq, Structural)]
pub struct IoMethods {
    pub version: i32,
    pub x_close: bool,
    pub x_read: bool,
    pub x_write: bool,
    pub x_truncate: bool,
    pub x_sync: bool,
    pub x_file_size: bool,
    pub x_lock: bool,
    pub x_unlock: bool,
    pub x_check_reserved_lock: bool,
    pub x_file_control: bool,
    pub x_sector_size: bool,
    pub x_device_characteristics: bool,
    pub x_shm_map: bool,
    pub x_shm_lock: bool,
    pub x_shm_barrier: bool,
    pub x_shm_unmap: bool,
    pub x_fetch: bool,
    pub x_unfetch: bool,
}

impl IoMethods {
    /// Whether every method is there that SQLite may call, going by the version:
    /// from version 2 on the shared-memory methods, from version 3 on the methods
    /// that map pages into memory.
    pub open spec fn callable(self) -> bool {
        &&& self.version >= 1 ==> {
            &&& self.x_close
            &&& self.x_read
            &&& self.x_write
            &&& self.x_truncate
            &&& self.x_sync
            &&& self.x_file_size
            &&& self.x_lock
            &&& self.x_unlock
            &&& self.x_check_reserved_lock
            &&& self.x_file_control
            &&& self.x_sector_size
            &&& self.x_device_characteristics
        }
        &&& self.version >= 2 ==> {
            &&& self.x_shm_map
            &&& self.x_shm_lock
            &&& self.x_shm_barrier
            &&& self.x_shm_unmap
        }
        &&& self.version >= 3 ==> self.x_fetch && self.x_unfetch
    }
}

/// The method table of every open file. The version is 2, for shared memory;
/// pages are not mapped into memory, so it must not be 3.
pub open spec fn io_methods_spec() -> IoMethods {
    IoMethods {
        version: 2,
        x_close: true,
        x_read: true,
        x_write: true,
        x_truncate: true,
        x_sync: true,
        x_file_size: true,
        x_lock: true,
        x_unlock: true,
        x_check_reserved_lock: true,
        x_file_control: true,
        x_sector_size: true,
        x_device_characteristics: true,
        x_shm_map: true,
        x_shm_lock: true,
        x_shm_barrier: true,
        x_shm_unmap: true,
        x_fetch: false,
        x_unfetch: false,
    }
}

pub fn io_methods() -> (methods: IoMethods)
    ensures
        methods == io_methods_spec(),
        methods.callable(),
{
    IoMethods {
        version: 2,
        x_close: true,
        x_read: true,
        x_write: true,
        x_truncate: true,
        x_sync: true,
        x_file_size: true,
        x_lock: true,
        x_unlock: true,
        x_check_reserved_lock: true,
        x_file_control: true,
        x_sector_size: true,
        x_device_characteristics: true,
        x_shm_map: true,
        x_shm_lock: true,
        x_shm_barrier: true,
        x_shm_unmap: true,
        x_fetch: false,
        x_unfetch: false,
    }
}

/// The method table of the VFS itself: its version, the size of a file object, the
/// longest path name, and which methods are there.
#[derive(Debug, Clone, Copy, PartialEq, Eq, Structural)]
pub struct VfsMethods {
    pub version: i32,
    pub sz_os_file: i32,
    pub mx_pathname: i32,
    pub x_open: bool,
    pub x_delete: bool,
    pub x_access: bool,
    pub x_full_pathname: bool,
    pub x_dl_open: bool,
    pub x_dl_error: bool,
    pub x_dl_sym: bool,
    pub x_dl_close: bool,
    pub x_randomness: bool,
    pub x_sleep: bool,
    pub x_current_time: bool,
    pub x_get_last_error: bool,
    pub x_current_time_int64: bool,
    pub x_set_system_call: bool,
    pub x_get_system_call: bool,
    pub x_next_system_call: bool,
}

impl VfsMethods {
    /// Whether every method is there that SQLite may call, going by the version. The
    /// methods for the last error and for system calls are optional.
    pub open spec fn callable(self) -> bool {
        &&& self.version >= 1 ==> {
            &&& self.x_open
            &&& self.x_delete
            &&& self.x_access
            &&& self.x_full_pathname
            &&& self.x_dl_open
            &&& self.x_dl_error
            &&& self.x_dl_sym
            &&& self.x_dl_close
            &&& self.x_randomness
            &&& self.x_sleep
            &&& self.x_current_time
        }
        &&& self.version >= 2 ==> self.x_current_time_int64
    }
}

/// The method table of a VFS whose file objects take `sz_os_file` bytes.
pub open spec fn vfs_methods_spec(sz_os_file: i32) -> VfsMethods {
    VfsMethods {
        version: 3,
        sz_os_file,
        mx_pathname: DEFAULT_MAX_PATH_LEN,
        x_open: true,
        x_delete: true,
        x_access: true,
        x_full_pathname: true,
        x_dl_open: true,
        x_dl_error: true,
        x_dl_sym: true,
        x_dl_close: true,
        x_randomness: true,
        x_sleep: true,
        x_current_time: true,
        x_get_last_error: false,
        x_current_time_int64: true,
        x_set_system_call: false,
        x_get_system_call: false,
        x_next_system_call: false,
    }
}

pub fn vfs_methods(sz_os_file: i32) -> (methods: VfsMethods)
    ensures
        methods == vfs_methods_spec(sz_os_file),
        methods.callable(),
{
    VfsMethods {
        version: 3,
        sz_os_file,
        mx_pathname: DEFAULT_MAX_PATH_LEN,
        x_open: true,
        x_delete: true,
        x_access: true,
        x_full_pathname: true,
        x_dl_open: true,
        x_dl_error: true,
        x_dl_sym: true,
        x_dl_close: true,
        x_randomness: true,
        x_sleep: true,
        x_current_time: true,
        x_get_last_error: false,
        x_current_time_int64: true,
        x_set_system_call: false,
        x_get_system_call: false,
        x_next_system_call: false,
    }
}

/// How far a registration has come.
#[derive(Debug, Clone, Copy)]
pub enum RegisterStage {
    /// Nothing is known of the SQLite library yet.
    Version,
    /// The library is new enough.
    Base,
    /// The base VFS is known.
    AppData,
    /// The VFS can be registered, with file objects of so many bytes.
    Register(i32),
    /// SQLite refused the VFS with this code.
    Release(SqliteErr),
    /// The registration is over.
    Finished(VfsResult<()>),
    /// The library is too old: it has this version.
    TooOld(i32),
}

/// A registration under way. The base VFS is known to SQLite as a `B`; a name is kept
/// as a `Name`.
#[derive(Debug, Clone, Copy)]
pub struct Registration<B, Name> {
    /// The name under which the VFS is registered.
    pub name: Name,
    pub make_default: bool,
    /// The size of a file object in bytes.
    pub wrapper_size: usize,
    /// The base VFS, once it was looked up, where there is one.
    pub base_vfs: Option<B>,
    pub stage: RegisterStage,
}

/// What has to be done next.
#[derive(Debug)]
pub enum RegisterAction<Name> {
    /// Ask the SQLite library for its version number.
    QueryVersion,
    /// Look up the default VFS, which becomes the base VFS.
    FindBase,
    /// Put the app data in place, with this method table for open files.
    InstallAppData(IoMethods),
    /// Register a VFS under this name, with this method table; SQLite wants
    /// `make_default` as a number.
    Register { name: Name, methods: VfsMethods, make_default: i32 },
    /// Free everything that was allocated.
    Release,
    /// Return this.
    Finish(VfsResult<()>),
    /// Panic: SQLite must be at least version `minimum`.
    Panic { minimum: i32, found: i32 },
}

/// What came of an action.
#[derive(Debug, Clone, Copy)]
pub enum RegisterEvent<B> {
    /// The version number of the SQLite library.
    Version(i32),
    /// The base VFS was looked up: this is it, where there is one.
    BaseFound(Option<B>),
    /// The allocation is in place.
    AppDataInstalled,
    /// The code that SQLite returned for the registration.
    Registered(i32),
    /// Everything is freed.
    Released,
}

impl<B: Copy, Name: Copy> Registration<B, Name> {
    /// The registration of a VFS with these options, before its first step.
    pub open spec fn start(name: Name, make_default: bool, wrapper_size: usize) -> Registration<
        B,
        Name,
    > {
        Registration {
            name,
            make_default,
            wrapper_size,
            base_vfs: None,
            stage: RegisterStage::Version,
        }
    }

    /// The stage that follows a stage on an event. An event that does not answer
    /// the pending action changes nothing.
    pub open spec fn next_stage(self, event: RegisterEvent<B>) -> RegisterStage {
        match (self.stage, event) {
            (RegisterStage::Version, RegisterEvent::Version(version)) => if version
                < MIN_SQLITE_VERSION_NUMBER {
                RegisterStage::TooOld(version)
            } else {
                RegisterStage::Base
            },
            (RegisterStage::Base, RegisterEvent::BaseFound(_)) => RegisterStage::AppData,
            (RegisterStage::AppData, RegisterEvent::AppDataInstalled) => if self.wrapper_size
                <= i32::MAX {
                RegisterStage::Register(self.wrapper_size as i32)
            } else {
                RegisterStage::Finished(Err(vars::SQLITE_INTERNAL))
            },
            (RegisterStage::Register(_), RegisterEvent::Registered(code)) => if code
                == vars::SQLITE_OK {
                RegisterStage::Finished(Ok(()))
            } else {
                RegisterStage::Release(code)
            },
            (RegisterStage::Release(code), RegisterEvent::Released) => RegisterStage::Finished(
                Err(code),
            ),
            _ => self.stage,
        }
    }

    pub open spec fn next(self, event: RegisterEvent<B>) -> Registration<B, Name> {
        Registration {
            base_vfs: match (self.stage, event) {
                (RegisterStage::Base, RegisterEvent::BaseFound(base_vfs)) => base_vfs,
                _ => self.base_vfs,
            },
            stage: self.next_stage(event),
            ..self
        }
    }

    /// Where a registration stands after a series of events.
    pub open spec fn run(self, events: Seq<RegisterEvent<B>>) -> Registration<B, Name>
        decreases events.len(),
    {
        if events.len() == 0 {
            self
        } else {
            self.run(events.drop_last()).next(events.last())
        }
    }

    pub open spec fn action_spec(self) -> RegisterAction<Name> {
        match self.stage {
            RegisterStage::Version => RegisterAction::QueryVersion,
            RegisterStage::Base => RegisterAction::FindBase,
            RegisterStage::AppData => RegisterAction::InstallAppData(io_methods_spec()),
            RegisterStage::Register(size) => RegisterAction::Register {
                name: self.name,
                methods: vfs_methods_spec(size),
                make_default: flags::bool_code(self.make_default),
            },
            RegisterStage::Release(_) => RegisterAction::Release,
            RegisterStage::Finished(result) => RegisterAction::Finish(result),
            RegisterStage::TooOld(version) => RegisterAction::Panic {
                minimum: MIN_SQLITE_VERSION_NUMBER,
                found: version,
            },
        }
    }

    /// The pending action.
    pub fn action(&self) -> (action: RegisterAction<Name>)
        ensures
            action == self.action_spec(),
    {
        match self.stage {
            RegisterStage::Version => RegisterAction::QueryVersion,
            RegisterStage::Base => RegisterAction::FindBase,
            RegisterStage::AppData => RegisterAction::InstallAppData(io_methods()),
            RegisterStage::Register(size) => RegisterAction::Register {
                name: self.name,
                methods: vfs_methods(size),
                make_default: int_of(self.make_default),
            },
            RegisterStage::Release(_) => RegisterAction::Release,
            RegisterStage::Finished(result) => RegisterAction::Finish(result),
            RegisterStage::TooOld(version) => RegisterAction::Panic {
                minimum: MIN_SQLITE_VERSION_NUMBER,
                found: version,
            },
        }
    }

    /// The app data of the VFS that is being registered: what the VFS does not do
    /// itself goes on to the base VFS that was looked up.
    pub open spec fn app_data_spec<T, M, A>(self, vfs: T, io_methods: M, sqlite_api: A) -> AppData<
        T,
        B,
        M,
        A,
    > {
        AppData { base_vfs: self.base_vfs, vfs, io_methods, sqlite_api }
    }

    /// Makes the app data.
    pub fn app_data<T, M, A>(&self, vfs: T, io_methods: M, sqlite_api: A) -> (app_data: AppData<
        T,
        B,
        M,
        A,
    >)
        ensures
            app_data == self.app_data_spec(vfs, io_methods, sqlite_api),
    {
        AppData { base_vfs: self.base_vfs, vfs, io_methods, sqlite_api }
    }
}

/// Takes a registration one event further.
pub fn register_inner<B: Copy, Name: Copy>(
    registration: Registration<B, Name>,
    event: RegisterEvent<B>,
) -> (next: Registration<B, Name>)
    ensures
        next == registration.next(event),
{
    let base_vfs = match (registration.stage, event) {
        (RegisterStage::Base, RegisterEvent::BaseFound(base_vfs)) => base_vfs,
        _ => registration.base_vfs,
    };
    let stage = match (registration.stage, event) {
        (RegisterStage::Version, RegisterEvent::Version(version)) => {
            if version < MIN_SQLITE_VERSION_NUMBER {
                RegisterStage::TooOld(version)
            } else {
                RegisterStage::Base
            }
        },
        (RegisterStage::Base, RegisterEvent::BaseFound(_)) => RegisterStage::AppData,
        (RegisterStage::AppData, RegisterEvent::AppDataInstalled) => {
            match i32::try_from(registration.wrapper_size) {
                Ok(size) => RegisterStage::Register(size),
                Err(_) => RegisterStage::Finished(Err(vars::SQLITE_INTERNAL)),
            }
        },
        (RegisterStage::Register(_), RegisterEvent::Registered(code)) => {
            if code == vars::SQLITE_OK {
                RegisterStage::Finished(Ok(()))
            } else {
                RegisterStage::Release(code)
            }
        },
        (RegisterStage::Release(code), RegisterEvent::Released) => RegisterStage::Finished(
            Err(code),
        ),
        (stage, _) => stage,
    };
    Registration {
        name: registration.name,
        make_default: registration.make_default,
        wrapper_size: registration.wrapper_size,
        base_vfs,
        stage,
    }
}

/// Starts the registration of a VFS with the SQLite library that this program is
/// linked with. `wrapper_size` is the size of a file object in bytes.
pub fn register_static<B: Copy, Name: Copy>(
    name: Name,
    opts: RegisterOpts,
    wrapper_size: usize,
) -> (registration: Registration<B, Name>)
    ensures
        registration == Registration::<B, Name>::start(name, opts.make_default, wrapper_size),
{
    Registration {
        name,
        make_default: opts.make_default,
        wrapper_size,
        base_vfs: None,
        stage: RegisterStage::Version,
    }
}

/// Starts the registration of a VFS with the SQLite library that loads this
/// program. Its routines, `p_api`, have to be there, and complete.
pub fn register_dynamic<Register, Find, Mprintf, Log, LibversionNumber, B: Copy, Name: Copy>(
    p_api: Option<ApiRoutines<Register, Find, Mprintf, Log, LibversionNumber>>,
    name: Name,
    opts: RegisterOpts,
    wrapper_size: usize,
) -> (started: VfsResult<
    (SqliteApi<Register, Find, Mprintf, Log, LibversionNumber>, Registration<B, Name>),
>)
    ensures
        started == match p_api {
            Some(
                ApiRoutines {
                    vfs_register: Some(register),
                    vfs_find: Some(find),
                    mprintf: Some(mprintf),
                    log: Some(log),
                    libversion_number: Some(libversion_number),
                },
            ) => Ok::<_, SqliteErr>(
                (
                    SqliteApi { register, find, mprintf, log, libversion_number },
                    Registration::<B, Name>::start(name, opts.make_default, wrapper_size),
                ),
            ),
            _ => Err(vars::SQLITE_INTERNAL),
        },
{
    let api = p_api.ok_or(vars::SQLITE_INTERNAL)?;
    let sqlite_api = SqliteApi::new_dynamic(api)?;
    Ok((sqlite_api, register_static(name, opts, wrapper_size)))
}

/// Whether a version that is new enough was reported.
pub open spec fn new_enough<B>(events: Seq<RegisterEvent<B>>) -> bool {
    exists|version: i32|
        version >= MIN_SQLITE_VERSION_NUMBER && #[trigger] events.contains(
            RegisterEvent::Version(version),
        )
}

/// Whether `events` account for a registration standing where it stands.
pub open spec fn explained<B, Name>(
    registration: Registration<B, Name>,
    events: Seq<RegisterEvent<B>>,
) -> bool {
    let based = events.contains(RegisterEvent::BaseFound(registration.base_vfs));
    let installed = events.contains(RegisterEvent::AppDataInstalled);
    match registration.stage {
        RegisterStage::Version => true,
        RegisterStage::TooOld(version) => {
            &&& version < MIN_SQLITE_VERSION_NUMBER
            &&& events.contains(RegisterEvent::Version(version))
        },
        RegisterStage::Base => new_enough(events),
        RegisterStage::AppData => new_enough(events) && based,
        RegisterStage::Register(size) => {
            &&& new_enough(events) && based && installed
            &&& size == registration.wrapper_size
        },
        RegisterStage::Release(code) => {
            &&& new_enough(events) && based && installed
            &&& code != vars::SQLITE_OK
            &&& events.contains(RegisterEvent::Registered(code))
        },
        RegisterStage::Finished(Ok(_)) => {
            &&& new_enough(events) && based && installed
            &&& events.contains(RegisterEvent::Registered(vars::SQLITE_OK))
        },
        RegisterStage::Finished(Err(code)) => {
            &&& new_enough(events) && based && installed
            &&& {
                ||| registration.wrapper_size > i32::MAX && code == vars::SQLITE_INTERNAL
                ||| {
                    &&& code != vars::SQLITE_OK
                    &&& events.contains(RegisterEvent::Registered(code))
                    &&& events.contains(RegisterEvent::Released)
                }
            }
        },
    }
}

/// Whatever happens, in whatever order: SQLite is asked to register a VFS, and a
/// registration succeeds or fails, only after a library that is new enough
/// reported its version, the base VFS was looked up, and the app data was put in
/// place; success takes SQLite's consent; memory is released only after SQLite
/// refused, and its code is then what the registration fails with; and only a
/// library that is too old leads to a panic.
pub proof fn law_every_stage_is_explained<B: Copy, Name: Copy>(
    name: Name,
    make_default: bool,
    wrapper_size: usize,
    events: Seq<RegisterEvent<B>>,
)
    ensures
        ({
            let reached = Registration::<B, Name>::start(name, make_default, wrapper_size).run(events);
            &&& reached.name == name
            &&& reached.make_default == make_default
            &&& reached.wrapper_size == wrapper_size
            &&& explained(reached, events)
        }),
    decreases events.len(),
{
    if events.len() > 0 {
        let earlier = events.drop_last();
        law_every_stage_is_explained(name, make_default, wrapper_size, earlier);
        assert forall|event: RegisterEvent<B>| earlier.contains(event) implies events.contains(
            event,
        ) by {
            let i = choose|i: int| 0 <= i < earlier.len() && earlier[i] == event;
            assert(events[i] == event);
        }
        assert(events.contains(events.last()));
    }
}

/// By the time that the app data is put in place, and that SQLite is asked to
/// register the VFS, the base VFS was looked up, and it is where the app data has
/// requests go on to. So a VFS that becomes the default goes on to the one that was
/// the default before, and not to itself.
pub proof fn law_base_is_the_former_default<B: Copy, Name: Copy, T, M, A>(
    name: Name,
    make_default: bool,
    wrapper_size: usize,
    events: Seq<RegisterEvent<B>>,
    vfs: T,
    io_methods: M,
    sqlite_api: A,
)
    ensures
        ({
            let reached = Registration::<B, Name>::start(name, make_default, wrapper_size).run(events);
            let app_data = reached.app_data_spec(vfs, io_methods, sqlite_api);
            reached.action_spec() is InstallAppData || reached.action_spec() is Register
                ==> events.contains(RegisterEvent::BaseFound(base::base_of(Some(&app_data))))
        }),
{
    law_every_stage_is_explained(name, make_default, wrapper_size, events);
}

/// What SQLite is asked to register is what the registration was started with: the
/// name, the size of a file object, and whether the VFS is to be the default.
pub proof fn law_registered_as_asked<B: Copy, Name: Copy>(
    name: Name,
    make_default: bool,
    wrapper_size: usize,
    events: Seq<RegisterEvent<B>>,
)
    ensures
        Registration::<B, Name>::start(name, make_default, wrapper_size).run(
            events,
        ).action_spec() matches RegisterAction::Register {
            name: registered,
            methods,
            make_default: number,
        } ==> {
            &&& registered == name
            &&& methods == vfs_methods_spec(methods.sz_os_file)
            &&& methods.sz_os_file == wrapper_size
            &&& flags::is_set(number) == make_default
        },
{
    law_every_stage_is_explained(name, make_default, wrapper_size, events);
}

/// The base VFS is looked up once: a registration that has it does not look again,
/// and keeps it, whatever happens.
pub proof fn law_base_is_looked_up_once<B: Copy, Name: Copy>(
    registration: Registration<B, Name>,
    events: Seq<RegisterEvent<B>>,
)
    requires
        registration.stage !is Version,
        registration.stage !is Base,
    ensures
        registration.run(events).action_spec() !is FindBase,
        registration.run(events).base_vfs == registration.base_vfs,
{
    lemma_base_stays(registration, events);
}

proof fn lemma_base_stays<B: Copy, Name: Copy>(
    registration: Registration<B, Name>,
    events: Seq<RegisterEvent<B>>,
)
    requires
        registration.stage !is Version,
        registration.stage !is Base,
    ensures
        registration.run(events).stage !is Version,
        registration.run(events).stage !is Base,
        registration.run(events).base_vfs == registration.base_vfs,
    decreases events.len(),
{
    if events.len() > 0 {
        lemma_base_stays(registration, events.drop_last());
    }
}

/// A registration that is over stays as it is, whatever happens afterwards.
pub proof fn law_finished_is_final<B: Copy, Name: Copy>(
    registration: Registration<B, Name>,
    events: Seq<RegisterEvent<B>>,
)
    requires
        registration.stage is Finished || registration.stage is TooOld,
    ensures
        registration.run(events) == registration,
    decreases events.len(),
{
    if events.len() > 0 {
        law_finished_is_final(registration, events.drop_last());
    }
}

/// Where each action is answered in turn, the version, the size of a file object
/// and SQLite's answer decide what becomes of a registration.
pub proof fn law_answers_decide<B: Copy, Name: Copy>(
    name: Name,
    make_default: bool,
    wrapper_size: usize,
    version: i32,
    base_vfs: Option<B>,
    code: i32,
)
    ensures
        Registration::<B, Name>::start(name, make_default, wrapper_size).run(
            seq![
                RegisterEvent::Version(version),
                RegisterEvent::BaseFound(base_vfs),
                RegisterEvent::AppDataInstalled,
                RegisterEvent::Registered(code),
                RegisterEvent::Released,
            ],
        ).stage == if version < MIN_SQLITE_VERSION_NUMBER {
            RegisterStage::TooOld(version)
        } else if wrapper_size > i32::MAX {
            RegisterStage::Finished(Err(vars::SQLITE_INTERNAL))
        } else if code == vars::SQLITE_OK {
            RegisterStage::Finished(Ok(()))
        } else {
            RegisterStage::Finished(Err(code))
        },
{
    reveal_with_fuel(Registration::run, 6);
}

/// No table that SQLite is given has a version that promises a method which is not
/// there.
pub proof fn law_tables_are_callable<B: Copy, Name: Copy>(registration: Registration<B, Name>)
    ensures
        registration.action_spec() matches RegisterAction::InstallAppData(methods)
            ==> methods.callable(),
        registration.action_spec() matches RegisterAction::Register { methods, .. }
            ==> methods.callable(),
{
}

/// A registration starts by asking for the version, whatever it is asked to register, and
/// with nothing known of a base VFS; a loaded library starts it as a linked one does.
pub proof fn law_registration_starts_with_the_version<
    Register,
    Find,
    Mprintf,
    Log,
    LibversionNumber,
    B: Copy,
    Name: Copy,
>(
    name: Name,
    opts: RegisterOpts,
    wrapper_size: usize,
    linked: Registration<B, Name>,
    action: RegisterAction<Name>,
    p_api: Option<ApiRoutines<Register, Find, Mprintf, Log, LibversionNumber>>,
    loaded: VfsResult<
        (SqliteApi<Register, Find, Mprintf, Log, LibversionNumber>, Registration<B, Name>),
    >,
)
    requires
        call_ensures(register_static::<B, Name>, (name, opts, wrapper_size), linked),
        call_ensures(Registration::<B, Name>::action, (&linked,), action),
        call_ensures(
            register_dynamic::<Register, Find, Mprintf, Log, LibversionNumber, B, Name>,
            (p_api, name, opts, wrapper_size),
            loaded,
        ),
    ensures
        action is QueryVersion,
        linked.base_vfs is None,
        linked.name == name,
        linked.make_default == opts.make_default,
        linked.wrapper_size == wrapper_size,
        loaded is Ok <==> (p_api matches Some(routines) && {
            &&& routines.vfs_register is Some && routines.vfs_find is Some
            &&& routines.mprintf is Some && routines.log is Some
            &&& routines.libversion_number is Some
        }),
        loaded matches Err(err) ==> err == 2,
        loaded matches Ok((api, registration)) ==> registration == linked && (p_api matches Some(
            routines,
        ) ==> {
            &&& routines.vfs_register == Some(api.register)
            &&& routines.vfs_find == Some(api.find)
            &&& routines.mprintf == Some(api.mprintf)
            &&& routines.log == Some(api.log)
            &&& routines.libversion_number == Some(api.libversion_number)
        }),
{
}

/// What is asked, what is answered, and what is asked next, wherever a registration
/// stands and whatever it registers. A version from 3.43.0 on leads to the base VFS, an
/// older one to a panic; the base VFS, once it is known, to the app data; the app data to
/// the registration, with the name, the size and the choice of default that were asked
/// for, or to an internal error where the size is too large; the consent of SQLite to
/// success, its refusal to a release; and the release to the failure with the code of the
/// refusal. An event that does not answer what is asked changes nothing.
pub proof fn law_each_answer_leads_on<B: Copy, Name: Copy>(
    registration: Registration<B, Name>,
    asked: RegisterAction<Name>,
    event: RegisterEvent<B>,
    next: Registration<B, Name>,
    then_asked: RegisterAction<Name>,
)
    requires
        call_ensures(Registration::<B, Name>::action, (&registration,), asked),
        call_ensures(register_inner::<B, Name>, (registration, event), next),
        call_ensures(Registration::<B, Name>::action, (&next,), then_asked),
    ensures
        next.name == registration.name,
        next.make_default == registration.make_default,
        next.wrapper_size == registration.wrapper_size,
        asked is QueryVersion ==> (event matches RegisterEvent::Version(version) ==> {
            &&& version >= 3043000 ==> then_asked is FindBase
            &&& version < 3043000 ==> (then_asked matches RegisterAction::Panic { minimum, found }
                && minimum == 3043000 && found == version)
        }),
        asked is FindBase ==> (event matches RegisterEvent::BaseFound(base_vfs) ==> then_asked
            is InstallAppData && next.base_vfs == base_vfs),
        asked is InstallAppData && event is AppDataInstalled ==> {
            &&& registration.wrapper_size <= 0x7fff_ffff ==> (then_asked matches RegisterAction::Register {
                name,
                methods,
                make_default,
            } && {
                &&& name == registration.name
                &&& methods.sz_os_file == registration.wrapper_size
                &&& make_default != 0 <==> registration.make_default
            })
            &&& registration.wrapper_size > 0x7fff_ffff ==> then_asked == RegisterAction::<
                Name,
            >::Finish(Err(2))
        },
        asked is Register ==> (event matches RegisterEvent::Registered(code) ==> {
            &&& code == 0 ==> then_asked == RegisterAction::<Name>::Finish(Ok(()))
            &&& code != 0 ==> then_asked is Release && next.stage == RegisterStage::Release(code)
        }),
        asked is Release && event is Released ==> (then_asked matches RegisterAction::Finish(
            Err(code),
        ) && registration.stage == RegisterStage::Release(code)),
        !(asked is FindBase && event is BaseFound) ==> next.base_vfs == registration.base_vfs,
        !{
            ||| asked is QueryVersion && event is Version
            ||| asked is FindBase && event is BaseFound
            ||| asked is InstallAppData && event is AppDataInstalled
            ||| asked is Register && event is Registered
            ||| asked is Release && event is Released
        } ==> next == registration && then_asked == asked,
{
}

/// What each stage of a registration asks for: the step that moves it on, whatever it
/// registers, and an end only where it is over.
pub proof fn law_each_stage_asks_for_its_step<B: Copy, Name: Copy>(
    registration: Registration<B, Name>,
    action: RegisterAction<Name>,
)
    requires
        call_ensures(Registration::<B, Name>::action, (&registration,), action),
    ensures
        action is QueryVersion <==> registration.stage is Version,
        action is FindBase <==> registration.stage is Base,
        action is InstallAppData <==> registration.stage is AppData,
        action is Register <==> registration.stage is Register,
        action is Release <==> registration.stage is Release,
        action is Finish <==> registration.stage is Finished,
        action is Panic <==> registration.stage is TooOld,
        action matches RegisterAction::Finish(result) ==> registration.stage
            == RegisterStage::Finished(result),
{
}

/// A registration comes to an end only by SQLite's answers. Success takes a library from
/// version 3.43.0 on, a look-up of the base VFS, app data in place, and SQLite's consent;
/// a failure takes the same but for the consent, and is either SQLite's refusal, after a
/// release, or an internal error for a size that is too large; and only an older library
/// leads to a panic.
pub proof fn law_registration_ends_by_the_answers<B: Copy, Name: Copy>(
    name: Name,
    make_default: bool,
    wrapper_size: usize,
    events: Seq<RegisterEvent<B>>,
    action: RegisterAction<Name>,
)
    requires
        call_ensures(
            Registration::<B, Name>::action,
            (&Registration::<B, Name>::start(name, make_default, wrapper_size).run(events),),
            action,
        ),
    ensures
        action is Finish || action is Register || action is Release || action is InstallAppData
            || action is FindBase ==> exists|version: i32|
            version >= 3043000 && #[trigger] events.contains(RegisterEvent::Version(version)),
        action is Finish || action is Register || action is Release || action is InstallAppData
            ==> exists|base_vfs: Option<B>| #[trigger]
            events.contains(RegisterEvent::BaseFound(base_vfs)),
        action is Finish || action is Register || action is Release ==> events.contains(
            RegisterEvent::AppDataInstalled,
        ),
        action == RegisterAction::<Name>::Finish(Ok(())) ==> events.contains(
            RegisterEvent::Registered(0),
        ) && wrapper_size <= 0x7fff_ffff,
        action matches RegisterAction::Finish(Err(code)) ==> {
            ||| wrapper_size > 0x7fff_ffff && code == 2
            ||| code != 0 && events.contains(RegisterEvent::Registered(code)) && events.contains(
                RegisterEvent::Released,
            )
        },
        action is Release ==> exists|code: i32|
            code != 0 && #[trigger] events.contains(RegisterEvent::Registered(code)),
        action matches RegisterAction::Panic { minimum, found } ==> minimum == 3043000 && found
            < 3043000 && events.contains(RegisterEvent::Version(found)),
{
    law_every_stage_is_explained(name, make_default, wrapper_size, events);
    if wrapper_size > 0x7fff_ffff {
        law_success_takes_a_small_size(name, make_default, wrapper_size, events);
    }
}

/// Nothing is registered whose file objects are larger than SQLite's numbers.
pub proof fn law_success_takes_a_small_size<B: Copy, Name: Copy>(
    name: Name,
    make_default: bool,
    wrapper_size: usize,
    events: Seq<RegisterEvent<B>>,
)
    requires
        wrapper_size > 0x7fff_ffff,
    ensures
        ({
            let stage = Registration::<B, Name>::start(name, make_default, wrapper_size).run(
                events,
            ).stage;
            &&& stage !is Register
            &&& stage !is Release
            &&& stage matches RegisterStage::Finished(result) ==> result is Err
        }),
    decreases events.len(),
{
    if events.len() > 0 {
        law_every_stage_is_explained(name, make_default, wrapper_size, events.drop_last());
        law_success_takes_a_small_size(name, make_default, wrapper_size, events.drop_last());
    }
}

/// Where a registration stands after a series of events is where taking them one by one
/// leads.
pub proof fn law_run_takes_events_one_by_one<B: Copy, Name: Copy>(
    registration: Registration<B, Name>,
    events: Seq<RegisterEvent<B>>,
    event: RegisterEvent<B>,
    next: Registration<B, Name>,
)
    requires
        call_ensures(register_inner::<B, Name>, (registration.run(events), event), next),
    ensures
        registration.run(events.push(event)) == next,
        registration.run(Seq::empty()) == registration,
{
    assert(events.push(event).drop_last() == events);
}

/// The tables that SQLite is given: for open files version 2, with every method of that
/// version and none that maps pages into memory; for the VFS version 3, with the size of a
/// file object that was asked for, room for path names of 512 bytes, and every method but
/// the optional ones.
pub proof fn law_tables_hold_every_method<B: Copy, Name: Copy>(
    registration: Registration<B, Name>,
    action: RegisterAction<Name>,
)
    requires
        call_ensures(Registration::<B, Name>::action, (&registration,), action),
    ensures
        action matches RegisterAction::InstallAppData(m) ==> {
            &&& m.version == 2
            &&& m.x_close && m.x_read && m.x_write && m.x_truncate && m.x_sync && m.x_file_size
            &&& m.x_lock && m.x_unlock && m.x_check_reserved_lock && m.x_file_control
            &&& m.x_sector_size && m.x_device_characteristics
            &&& m.x_shm_map && m.x_shm_lock && m.x_shm_barrier && m.x_shm_unmap
            &&& !m.x_fetch && !m.x_unfetch
        },
        action matches RegisterAction::Register { methods: m, .. } ==> {
            &&& m.version == 3
            &&& registration.stage == RegisterStage::Register(m.sz_os_file)
            &&& m.mx_pathname == 512
            &&& m.x_open && m.x_delete && m.x_access && m.x_full_pathname
            &&& m.x_dl_open && m.x_dl_error && m.x_dl_sym && m.x_dl_close
            &&& m.x_randomness && m.x_sleep && m.x_current_time && m.x_current_time_int64
            &&& !m.x_get_last_error && !m.x_set_system_call
            &&& !m.x_get_system_call && !m.x_next_system_call
        },
        action matches RegisterAction::Register { make_default, .. } ==> make_default == (
        if registration.make_default {
            1i32
        } else {
            0i32
        }),
{
}

/// The app data of a registration has the base VFS that was looked up, and the parts that
/// it was made of.
pub proof fn law_app_data_keeps_its_parts<B: Copy, Name: Copy, T, M, A>(
    registration: Registration<B, Name>,
    vfs: T,
    io_methods: M,
    sqlite_api: A,
    app_data: AppData<T, B, M, A>,
)
    requires
        call_ensures(
            Registration::<B, Name>::app_data::<T, M, A>,
            (&registration, vfs, io_methods, sqlite_api),
            app_data,
        ),
    ensures
        app_data.base_vfs == registration.base_vfs,
        app_data.vfs == vfs,
        app_data.io_methods == io_methods,
        app_data.sqlite_api == sqlite_api,
        base::base_of(Some(&app_data)) == registration.base_vfs,
{
}

} // verus!

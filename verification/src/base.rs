//! The app data of a registered VFS, and the requests that go on to its base VFS,
//! the one that was the default before.
//!
//! In each of these requests `app_data` is missing where the VFS has none.
//! `method_of` finds the method that the base VFS has for the request, if it has
//! one. That method is called on the base VFS, with the other arguments as they
//! came.

use crate::vars;
use crate::vfs::{SqliteErr, VfsResult};
use vstd::prelude::*;

verus! {

/// What a registered VFS carries along: the VFS itself, the base VFS where there is
/// one, the method table of open files, and the routines of SQLite.
pub struct AppData<T, B, M, A> {
    pub base_vfs: Option<B>,
    pub vfs: T,
    pub io_methods: M,
    pub sqlite_api: A,
}

/// The base VFS that requests go on to.
pub open spec fn base_of<T, B, M, A>(app_data: Option<&AppData<T, B, M, A>>) -> Option<B> {
    match app_data {
        Some(app_data) => app_data.base_vfs,
        None => None,
    }
}

/// Finds the base VFS.
pub fn unwrap_base_vfs<T, B: Copy, M, A>(app_data: Option<&AppData<T, B, M, A>>) -> (base: VfsResult<B>)
    ensures
        base == match base_of(app_data) {
            Some(b) => Ok::<B, SqliteErr>(b),
            None => Err(vars::SQLITE_INTERNAL),
        },
{
    match app_data {
        Some(app_data) => app_data.base_vfs.ok_or(vars::SQLITE_INTERNAL),
        None => Err(vars::SQLITE_INTERNAL),
    }
}

/// Opens a shared library on the base VFS; `null` is the answer where that cannot
/// be.
pub fn x_dlopen<
    T,
    B: Copy,
    M,
    A,
    Path,
    Library,
    F: FnOnce(B, Path) -> Library,
    MethodOf: FnOnce(B) -> Option<F>,
>(
    app_data: Option<&AppData<T, B, M, A>>,
    method_of: MethodOf,
    z_path: Path,
    null: Library,
) -> (library: Library)
    requires
        base_of(app_data) matches Some(b) ==> {
            &&& call_requires(method_of, (b,))
            &&& forall|method: F| #[trigger]
                call_ensures(method_of, (b,), Some(method)) ==> call_requires(method, (b, z_path))
        },
    ensures
        match base_of(app_data) {
            Some(b) => exists|method: Option<F>|
                {
                    &&& #[trigger] call_ensures(method_of, (b,), method)
                    &&& match method {
                        Some(method) => call_ensures(method, (b, z_path), library),
                        None => library == null,
                    }
                },
            None => library == null,
        },
{
    if let Ok(b) = unwrap_base_vfs(app_data) {
        if let Some(method) = method_of(b) {
            return method(b, z_path);
        }
    }
    null
}

/// Has the base VFS explain the last failure to open a shared library, where it
/// can.
pub fn x_dlerror<
    T,
    B: Copy,
    M,
    A,
    Message,
    F: FnOnce(B, i32, Message),
    MethodOf: FnOnce(B) -> Option<F>,
>(
    app_data: Option<&AppData<T, B, M, A>>,
    method_of: MethodOf,
    n_byte: i32,
    z_err_msg: Message,
)
    requires
        base_of(app_data) matches Some(b) ==> {
            &&& call_requires(method_of, (b,))
            &&& forall|method: F| #[trigger]
                call_ensures(method_of, (b,), Some(method)) ==> call_requires(method, (b, n_byte, z_err_msg))
        },
    ensures
        base_of(app_data) matches Some(b) ==> exists|method: Option<F>|
            {
                &&& #[trigger] call_ensures(method_of, (b,), method)
                &&& method matches Some(method) ==> call_ensures(method, (b, n_byte, z_err_msg), ())
            },
{
    if let Ok(b) = unwrap_base_vfs(app_data) {
        if let Some(method) = method_of(b) {
            method(b, n_byte, z_err_msg);
        }
    }
}

/// Looks up a symbol in a shared library on the base VFS; there is none where
/// that cannot be.
pub fn x_dlsym<
    T,
    B: Copy,
    M,
    A,
    Library,
    Name,
    Symbol,
    F: FnOnce(B, Library, Name) -> Option<Symbol>,
    MethodOf: FnOnce(B) -> Option<F>,
>(
    app_data: Option<&AppData<T, B, M, A>>,
    method_of: MethodOf,
    p_handle: Library,
    z_symbol: Name,
) -> (symbol: Option<Symbol>)
    requires
        base_of(app_data) matches Some(b) ==> {
            &&& call_requires(method_of, (b,))
            &&& forall|method: F| #[trigger]
                call_ensures(method_of, (b,), Some(method)) ==> call_requires(method, (b, p_handle, z_symbol))
        },
    ensures
        match base_of(app_data) {
            Some(b) => exists|method: Option<F>|
                {
                    &&& #[trigger] call_ensures(method_of, (b,), method)
                    &&& match method {
                        Some(method) => call_ensures(method, (b, p_handle, z_symbol), symbol),
                        None => symbol is None,
                    }
                },
            None => symbol is None,
        },
{
    if let Ok(b) = unwrap_base_vfs(app_data) {
        if let Some(method) = method_of(b) {
            return method(b, p_handle, z_symbol);
        }
    }
    None
}

/// Closes a shared library on the base VFS, where that can be.
pub fn x_dlclose<
    T,
    B: Copy,
    M,
    A,
    Library,
    F: FnOnce(B, Library),
    MethodOf: FnOnce(B) -> Option<F>,
>(
    app_data: Option<&AppData<T, B, M, A>>,
    method_of: MethodOf,
    p_handle: Library,
)
    requires
        base_of(app_data) matches Some(b) ==> {
            &&& call_requires(method_of, (b,))
            &&& forall|method: F| #[trigger]
                call_ensures(method_of, (b,), Some(method)) ==> call_requires(method, (b, p_handle))
        },
    ensures
        base_of(app_data) matches Some(b) ==> exists|method: Option<F>|
            {
                &&& #[trigger] call_ensures(method_of, (b,), method)
                &&& method matches Some(method) ==> call_ensures(method, (b, p_handle), ())
            },
{
    if let Ok(b) = unwrap_base_vfs(app_data) {
        if let Some(method) = method_of(b) {
            method(b, p_handle);
        }
    }
}

/// Asks the base VFS for `n_byte` random bytes.
pub fn x_randomness<
    T,
    B: Copy,
    M,
    A,
    Out,
    F: FnOnce(B, i32, Out) -> i32,
    MethodOf: FnOnce(B) -> Option<F>,
>(
    app_data: Option<&AppData<T, B, M, A>>,
    method_of: MethodOf,
    n_byte: i32,
    z_out: Out,
) -> (rc: i32)
    requires
        base_of(app_data) matches Some(b) ==> {
            &&& call_requires(method_of, (b,))
            &&& forall|method: F| #[trigger]
                call_ensures(method_of, (b,), Some(method)) ==> call_requires(method, (b, n_byte, z_out))
        },
    ensures
        match base_of(app_data) {
            Some(b) => exists|method: Option<F>|
                {
                    &&& #[trigger] call_ensures(method_of, (b,), method)
                    &&& match method {
                        Some(method) => call_ensures(method, (b, n_byte, z_out), rc),
                        None => rc == vars::SQLITE_INTERNAL,
                    }
                },
            None => rc == vars::SQLITE_INTERNAL,
        },
{
    if let Ok(b) = unwrap_base_vfs(app_data) {
        if let Some(method) = method_of(b) {
            return method(b, n_byte, z_out);
        }
    }
    vars::SQLITE_INTERNAL
}

/// Has the base VFS sleep.
pub fn x_sleep<
    T,
    B: Copy,
    M,
    A,
    F: FnOnce(B, i32) -> i32,
    MethodOf: FnOnce(B) -> Option<F>,
>(
    app_data: Option<&AppData<T, B, M, A>>,
    method_of: MethodOf,
    microseconds: i32,
) -> (rc: i32)
    requires
        base_of(app_data) matches Some(b) ==> {
            &&& call_requires(method_of, (b,))
            &&& forall|method: F| #[trigger]
                call_ensures(method_of, (b,), Some(method)) ==> call_requires(method, (b, microseconds))
        },
    ensures
        match base_of(app_data) {
            Some(b) => exists|method: Option<F>|
                {
                    &&& #[trigger] call_ensures(method_of, (b,), method)
                    &&& match method {
                        Some(method) => call_ensures(method, (b, microseconds), rc),
                        None => rc == vars::SQLITE_INTERNAL,
                    }
                },
            None => rc == vars::SQLITE_INTERNAL,
        },
{
    if let Ok(b) = unwrap_base_vfs(app_data) {
        if let Some(method) = method_of(b) {
            return method(b, microseconds);
        }
    }
    vars::SQLITE_INTERNAL
}

/// Asks the base VFS for the current time as a day number.
pub fn x_current_time<
    T,
    B: Copy,
    M,
    A,
    Out,
    F: FnOnce(B, Out) -> i32,
    MethodOf: FnOnce(B) -> Option<F>,
>(
    app_data: Option<&AppData<T, B, M, A>>,
    method_of: MethodOf,
    p_time: Out,
) -> (rc: i32)
    requires
        base_of(app_data) matches Some(b) ==> {
            &&& call_requires(method_of, (b,))
            &&& forall|method: F| #[trigger]
                call_ensures(method_of, (b,), Some(method)) ==> call_requires(method, (b, p_time))
        },
    ensures
        match base_of(app_data) {
            Some(b) => exists|method: Option<F>|
                {
                    &&& #[trigger] call_ensures(method_of, (b,), method)
                    &&& match method {
                        Some(method) => call_ensures(method, (b, p_time), rc),
                        None => rc == vars::SQLITE_INTERNAL,
                    }
                },
            None => rc == vars::SQLITE_INTERNAL,
        },
{
    if let Ok(b) = unwrap_base_vfs(app_data) {
        if let Some(method) = method_of(b) {
            return method(b, p_time);
        }
    }
    vars::SQLITE_INTERNAL
}

/// Asks the base VFS for the current time in milliseconds.
pub fn x_current_time_int64<
    T,
    B: Copy,
    M,
    A,
    Out,
    F: FnOnce(B, Out) -> i32,
    MethodOf: FnOnce(B) -> Option<F>,
>(
    app_data: Option<&AppData<T, B, M, A>>,
    method_of: MethodOf,
    p_time: Out,
) -> (rc: i32)
    requires
        base_of(app_data) matches Some(b) ==> {
            &&& call_requires(method_of, (b,))
            &&& forall|method: F| #[trigger]
                call_ensures(method_of, (b,), Some(method)) ==> call_requires(method, (b, p_time))
        },
    ensures
        match base_of(app_data) {
            Some(b) => exists|method: Option<F>|
                {
                    &&& #[trigger] call_ensures(method_of, (b,), method)
                    &&& match method {
                        Some(method) => call_ensures(method, (b, p_time), rc),
                        None => rc == vars::SQLITE_INTERNAL,
                    }
                },
            None => rc == vars::SQLITE_INTERNAL,
        },
{
    if let Ok(b) = unwrap_base_vfs(app_data) {
        if let Some(method) = method_of(b) {
            return method(b, p_time);
        }
    }
    vars::SQLITE_INTERNAL
}

/// Opening a shared library goes on to the base VFS that the app data has, with the path as it
/// came, and comes to `null` where there is no base VFS or it has no such method.
pub proof fn law_dlopen_goes_to_the_base<
    T,
    B: Copy,
    M,
    A,
    Path,
    Library,
    F: FnOnce(B, Path) -> Library,
    MethodOf: FnOnce(B) -> Option<F>,
>(
    app_data: Option<&AppData<T, B, M, A>>,
    method_of: MethodOf,
    z_path: Path,
    null: Library,
    library: Library,
)
    requires
        call_ensures(x_dlopen::<T, B, M, A, Path, Library, F, MethodOf>, (app_data, method_of, z_path, null), library),
    ensures
        app_data is None ==> library == null,
        app_data matches Some(data) ==> (data.base_vfs is None ==> library == null),
        app_data matches Some(data) ==> (data.base_vfs matches Some(b) ==> exists|method: Option<F>|
            {
                &&& #[trigger] call_ensures(method_of, (b,), method)
                &&& method is None ==> library == null
                &&& method matches Some(m) ==> call_ensures(m, (b, z_path), library)
            }),
{
}

/// Explaining a failure goes on to the base VFS that the app data has, with the arguments as
/// they came.
pub proof fn law_dlerror_goes_to_the_base<
    T,
    B: Copy,
    M,
    A,
    Message,
    F: FnOnce(B, i32, Message),
    MethodOf: FnOnce(B) -> Option<F>,
>(
    app_data: Option<&AppData<T, B, M, A>>,
    method_of: MethodOf,
    n_byte: i32,
    z_err_msg: Message,
)
    requires
        call_ensures(x_dlerror::<T, B, M, A, Message, F, MethodOf>, (app_data, method_of, n_byte, z_err_msg), ()),
    ensures
        app_data matches Some(data) ==> (data.base_vfs matches Some(b) ==> exists|method: Option<F>|
            {
                &&& #[trigger] call_ensures(method_of, (b,), method)
                &&& method matches Some(m) ==> call_ensures(m, (b, n_byte, z_err_msg), ())
            }),
{
}

/// Looking up a symbol goes on to the base VFS that the app data has, with the arguments as
/// they came, and comes to nothing where there is no base VFS or it has no such method.
pub proof fn law_dlsym_goes_to_the_base<
    T,
    B: Copy,
    M,
    A,
    Library,
    Name,
    Symbol,
    F: FnOnce(B, Library, Name) -> Option<Symbol>,
    MethodOf: FnOnce(B) -> Option<F>,
>(
    app_data: Option<&AppData<T, B, M, A>>,
    method_of: MethodOf,
    p_handle: Library,
    z_symbol: Name,
    symbol: Option<Symbol>,
)
    requires
        call_ensures(x_dlsym::<T, B, M, A, Library, Name, Symbol, F, MethodOf>, (app_data, method_of, p_handle, z_symbol), symbol),
    ensures
        app_data is None ==> symbol is None,
        app_data matches Some(data) ==> (data.base_vfs is None ==> symbol is None),
        app_data matches Some(data) ==> (data.base_vfs matches Some(b) ==> exists|method: Option<F>|
            {
                &&& #[trigger] call_ensures(method_of, (b,), method)
                &&& method is None ==> symbol is None
                &&& method matches Some(m) ==> call_ensures(m, (b, p_handle, z_symbol), symbol)
            }),
{
}

/// Closing a shared library goes on to the base VFS that the app data has.
pub proof fn law_dlclose_goes_to_the_base<
    T,
    B: Copy,
    M,
    A,
    Library,
    F: FnOnce(B, Library),
    MethodOf: FnOnce(B) -> Option<F>,
>(
    app_data: Option<&AppData<T, B, M, A>>,
    method_of: MethodOf,
    p_handle: Library,
)
    requires
        call_ensures(x_dlclose::<T, B, M, A, Library, F, MethodOf>, (app_data, method_of, p_handle), ()),
    ensures
        app_data matches Some(data) ==> (data.base_vfs matches Some(b) ==> exists|method: Option<F>|
            {
                &&& #[trigger] call_ensures(method_of, (b,), method)
                &&& method matches Some(m) ==> call_ensures(m, (b, p_handle), ())
            }),
{
}

/// A request for random bytes goes on to the base VFS that the app data has, with the
/// arguments as they came; it is an internal error where there is no base VFS or it has no
/// such method.
pub proof fn law_randomness_goes_to_the_base<
    T,
    B: Copy,
    M,
    A,
    Out,
    F: FnOnce(B, i32, Out) -> i32,
    MethodOf: FnOnce(B) -> Option<F>,
>(
    app_data: Option<&AppData<T, B, M, A>>,
    method_of: MethodOf,
    n_byte: i32,
    z_out: Out,
    rc: i32,
)
    requires
        call_ensures(x_randomness::<T, B, M, A, Out, F, MethodOf>, (app_data, method_of, n_byte, z_out), rc),
    ensures
        app_data is None ==> rc == 2,
        app_data matches Some(data) ==> (data.base_vfs is None ==> rc == 2),
        app_data matches Some(data) ==> (data.base_vfs matches Some(b) ==> exists|method: Option<F>|
            {
                &&& #[trigger] call_ensures(method_of, (b,), method)
                &&& method is None ==> rc == 2
                &&& method matches Some(m) ==> call_ensures(m, (b, n_byte, z_out), rc)
            }),
{
}

/// A sleep goes on to the base VFS that the app data has, for the time that was asked; it is
/// an internal error where there is no base VFS or it has no such method.
pub proof fn law_sleep_goes_to_the_base<
    T,
    B: Copy,
    M,
    A,
    F: FnOnce(B, i32) -> i32,
    MethodOf: FnOnce(B) -> Option<F>,
>(
    app_data: Option<&AppData<T, B, M, A>>,
    method_of: MethodOf,
    microseconds: i32,
    rc: i32,
)
    requires
        call_ensures(x_sleep::<T, B, M, A, F, MethodOf>, (app_data, method_of, microseconds), rc),
    ensures
        app_data is None ==> rc == 2,
        app_data matches Some(data) ==> (data.base_vfs is None ==> rc == 2),
        app_data matches Some(data) ==> (data.base_vfs matches Some(b) ==> exists|method: Option<F>|
            {
                &&& #[trigger] call_ensures(method_of, (b,), method)
                &&& method is None ==> rc == 2
                &&& method matches Some(m) ==> call_ensures(m, (b, microseconds), rc)
            }),
{
}

/// The day number is the base VFS's to tell; it is an internal error where there is no base
/// VFS or it has no such method.
pub proof fn law_current_time_goes_to_the_base<
    T,
    B: Copy,
    M,
    A,
    Out,
    F: FnOnce(B, Out) -> i32,
    MethodOf: FnOnce(B) -> Option<F>,
>(
    app_data: Option<&AppData<T, B, M, A>>,
    method_of: MethodOf,
    p_time: Out,
    rc: i32,
)
    requires
        call_ensures(x_current_time::<T, B, M, A, Out, F, MethodOf>, (app_data, method_of, p_time), rc),
    ensures
        app_data is None ==> rc == 2,
        app_data matches Some(data) ==> (data.base_vfs is None ==> rc == 2),
        app_data matches Some(data) ==> (data.base_vfs matches Some(b) ==> exists|method: Option<F>|
            {
                &&& #[trigger] call_ensures(method_of, (b,), method)
                &&& method is None ==> rc == 2
                &&& method matches Some(m) ==> call_ensures(m, (b, p_time), rc)
            }),
{
}

/// The time in milliseconds is the base VFS's to tell; it is an internal error where there is
/// no base VFS or it has no such method.
pub proof fn law_current_time_int64_goes_to_the_base<
    T,
    B: Copy,
    M,
    A,
    Out,
    F: FnOnce(B, Out) -> i32,
    MethodOf: FnOnce(B) -> Option<F>,
>(
    app_data: Option<&AppData<T, B, M, A>>,
    method_of: MethodOf,
    p_time: Out,
    rc: i32,
)
    requires
        call_ensures(x_current_time_int64::<T, B, M, A, Out, F, MethodOf>, (app_data, method_of, p_time), rc),
    ensures
        app_data is None ==> rc == 2,
        app_data matches Some(data) ==> (data.base_vfs is None ==> rc == 2),
        app_data matches Some(data) ==> (data.base_vfs matches Some(b) ==> exists|method: Option<F>|
            {
                &&& #[trigger] call_ensures(method_of, (b,), method)
                &&& method is None ==> rc == 2
                &&& method matches Some(m) ==> call_ensures(m, (b, p_time), rc)
            }),
{
}

/// The base VFS is the one that the app data has, and nothing else; that there is none is
/// an internal error.
pub proof fn law_base_is_that_of_the_app_data<T, B: Copy, M, A>(
    app_data: Option<&AppData<T, B, M, A>>,
    base: VfsResult<B>,
)
    requires
        call_ensures(unwrap_base_vfs::<T, B, M, A>, (app_data,), base),
    ensures
        base matches Ok(b) ==> (app_data matches Some(data) && data.base_vfs == Some(b)),
        base matches Err(err) ==> err == 2 && (app_data matches Some(data) ==> data.base_vfs is None),
        app_data matches Some(data) ==> base_of(app_data) == data.base_vfs,
        app_data is None ==> base_of(app_data) is None,
{
}

} // verus!

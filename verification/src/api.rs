//! The routines of SQLite that a VFS needs.

use crate::text::{self, c_string};
use crate::vars;
use crate::vfs::VfsResult;
use vstd::prelude::*;
use vstd::utf8;

verus! {

/// The routines, each in whatever form the caller keeps it: the crate passes them
/// along and does not look inside.
#[derive(Clone)]
pub struct SqliteApi<Register, Find, Mprintf, Log, LibversionNumber> {
    pub register: Register,
    pub find: Find,
    pub mprintf: Mprintf,
    pub log: Log,
    pub libversion_number: LibversionNumber,
}

/// The routines as a loading extension finds them: any of them can be missing.
pub struct ApiRoutines<Register, Find, Mprintf, Log, LibversionNumber> {
    pub vfs_register: Option<Register>,
    pub vfs_find: Option<Find>,
    pub mprintf: Option<Mprintf>,
    pub log: Option<Log>,
    pub libversion_number: Option<LibversionNumber>,
}

/// The format under which `mprintf` copies its text: one string, as it is.
pub open spec fn copy_format() -> Seq<u8> {
    seq![0x25u8, 0x73u8, 0u8]
}

/// Whether `returned` can come back where `call` has the routine `mprintf` copy the
/// C string `bytes`.
pub open spec fn mprintf_answers<Mprintf, P, Call: FnOnce(&Mprintf, &[u8], &[u8]) -> Option<P>>(
    call: Call,
    mprintf: &Mprintf,
    bytes: Seq<u8>,
    returned: Option<P>,
) -> bool {
    exists|format: &[u8], argument: &[u8]|
        {
            &&& format@ == copy_format()
            &&& argument@ == bytes
            &&& #[trigger] call_ensures(call, (mprintf, format, argument), returned)
        }
}

/// What copying a text leads to, given what `mprintf` returned for it.
pub open spec fn mprintf_outcome<P>(returned: Option<P>) -> VfsResult<()> {
    match returned {
        Some(_) => Ok(()),
        None => Err(vars::SQLITE_NOMEM),
    }
}

/// Passes on what `mprintf` returned: a new buffer goes to `out`, where there is
/// an `out`; no buffer means that memory ran out.
pub fn mprintf_reply<P>(returned: Option<P>, out: Option<&mut Option<P>>) -> (outcome: VfsResult<()>)
    ensures
        outcome == mprintf_outcome(returned),
        out matches Some(slot) ==> *final(slot) == if returned is Some {
            returned
        } else {
            *slot
        },
{
    match returned {
        None => Err(vars::SQLITE_NOMEM),
        Some(buffer) => {
            if let Some(slot) = out {
                *slot = Some(buffer);
            }
            Ok(())
        },
    }
}

impl<Register, Find, Mprintf, Log, LibversionNumber> SqliteApi<
    Register,
    Find,
    Mprintf,
    Log,
    LibversionNumber,
> {
    /// The routines of the SQLite library that this program is linked with.
    pub fn new_static(
        register: Register,
        find: Find,
        mprintf: Mprintf,
        log: Log,
        libversion_number: LibversionNumber,
    ) -> (api: Self)
        ensures
            api == (SqliteApi { register, find, mprintf, log, libversion_number }),
    {
        SqliteApi { register, find, mprintf, log, libversion_number }
    }

    /// The routines of the SQLite library that loads this program, all of which
    /// have to be there.
    pub fn new_dynamic(
        api: ApiRoutines<Register, Find, Mprintf, Log, LibversionNumber>,
    ) -> (loaded: VfsResult<Self>)
        ensures
            loaded == match (api.vfs_register, api.vfs_find, api.mprintf, api.log, api.libversion_number) {
                (
                    Some(register),
                    Some(find),
                    Some(mprintf),
                    Some(log),
                    Some(libversion_number),
                ) => Ok::<Self, i32>(
                    SqliteApi { register, find, mprintf, log, libversion_number },
                ),
                _ => Err(vars::SQLITE_INTERNAL),
            },
    {
        Ok(
            SqliteApi {
                register: api.vfs_register.ok_or(vars::SQLITE_INTERNAL)?,
                find: api.vfs_find.ok_or(vars::SQLITE_INTERNAL)?,
                mprintf: api.mprintf.ok_or(vars::SQLITE_INTERNAL)?,
                log: api.log.ok_or(vars::SQLITE_INTERNAL)?,
                libversion_number: api.libversion_number.ok_or(vars::SQLITE_INTERNAL)?,
            },
        )
    }

    /// Looks up the default VFS, which is what SQLite finds where no name is given.
    /// `call` performs the call: it gets the routine and the name, and returns the
    /// VFS unless that is null.
    pub fn find_base<Name, B, Call: FnOnce(&Find, Option<Name>) -> Option<B>>(&self, call: Call) -> (base:
        Option<B>)
        requires
            call_requires(call, (&self.find, None::<Name>)),
        ensures
            call_ensures(call, (&self.find, None::<Name>), base),
    {
        call(&self.find, None)
    }

    /// Copies the provided string into a memory buffer allocated by
    /// `sqlite3_mprintf`, and stores the buffer in `out` where there is an `out`.
    /// `call` performs the call: it gets the routine, the format and the argument,
    /// both of them C strings, and returns the buffer unless that is null. It is
    /// the caller's responsibility to eventually free the buffer.
    pub fn mprintf<P, Call: FnOnce(&Mprintf, &[u8], &[u8]) -> Option<P>>(
        &self,
        call: Call,
        s: &str,
        out: Option<&mut Option<P>>,
    ) -> (outcome: VfsResult<()>)
        requires
            forall|format: &[u8], argument: &[u8]|
                {
                    &&& format@ == copy_format()
                    &&& text::c_string_spec(utf8::encode_utf8(s@)) == Ok::<Seq<u8>, i32>(argument@)
                } ==> #[trigger] call_requires(call, (&self.mprintf, format, argument)),
        ensures
            match text::c_string_spec(utf8::encode_utf8(s@)) {
                Err(err) => {
                    &&& outcome == Err::<(), i32>(err)
                    &&& out matches Some(slot) ==> *final(slot) == *slot
                },
                Ok(bytes) => exists|returned: Option<P>|
                    {
                        &&& #[trigger] mprintf_answers(call, &self.mprintf, bytes, returned)
                        &&& outcome == mprintf_outcome(returned)
                        &&& out matches Some(slot) ==> *final(slot) == if returned is Some {
                            returned
                        } else {
                            *slot
                        }
                    },
            },
    {
        let argument: Vec<u8> = c_string(s)?;
        let format: Vec<u8> = vec![0x25u8, 0x73u8, 0u8];
        let returned = call(&self.mprintf, format.as_slice(), argument.as_slice());
        proof {
            let bytes = text::c_string_spec(utf8::encode_utf8(s@))->Ok_0;
            assert(mprintf_answers(call, &self.mprintf, bytes, returned));
        }
        mprintf_reply(returned, out)
    }
}

/// A text is copied as it is: `mprintf` gets the format for one string and the text as a C
/// string, and the buffer that it returns goes to `out`. No buffer means that memory ran
/// out, and a text with the zero character in it is refused; nothing changes then.
pub proof fn law_mprintf_copies_the_text<
    Register,
    Find,
    Mprintf,
    Log,
    LibversionNumber,
    P,
    Call: FnOnce(&Mprintf, &[u8], &[u8]) -> Option<P>,
>(
    api: &SqliteApi<Register, Find, Mprintf, Log, LibversionNumber>,
    call: Call,
    s: &str,
    out: Option<&mut Option<P>>,
    outcome: VfsResult<()>,
)
    requires
        call_ensures(
            SqliteApi::<Register, Find, Mprintf, Log, LibversionNumber>::mprintf::<P, Call>,
            (api, call, s, out),
            outcome,
        ),
    ensures
        s@.contains('\0') ==> outcome == Err::<(), i32>(2) && (out matches Some(slot)
            ==> *final(slot) == *slot),
        !s@.contains('\0') ==> exists|format: &[u8], argument: &[u8], returned: Option<P>|
            {
                &&& #[trigger] call_ensures(call, (&api.mprintf, format, argument), returned)
                &&& format@ == seq![0x25u8, 0x73u8, 0u8]
                &&& argument@ == utf8::encode_utf8(s@).push(0u8)
                &&& returned is Some ==> outcome is Ok && (out matches Some(slot) ==> *final(slot)
                    == returned)
                &&& returned is None ==> outcome == Err::<(), i32>(7) && (out matches Some(slot)
                    ==> *final(slot) == *slot)
            },
{
    text::law_zero_character_is_refused(s@);
}

/// Routines that a loading library hands over are the routines of the linked library in
/// every place, where all of them are there; where one is missing, that is an internal
/// error.
pub proof fn law_loaded_routines_are_kept<Register, Find, Mprintf, Log, LibversionNumber>(
    routines: ApiRoutines<Register, Find, Mprintf, Log, LibversionNumber>,
    loaded: VfsResult<SqliteApi<Register, Find, Mprintf, Log, LibversionNumber>>,
)
    requires
        call_ensures(
            SqliteApi::<Register, Find, Mprintf, Log, LibversionNumber>::new_dynamic,
            (routines,),
            loaded,
        ),
    ensures
        loaded is Ok <==> {
            &&& routines.vfs_register is Some && routines.vfs_find is Some
            &&& routines.mprintf is Some && routines.log is Some
            &&& routines.libversion_number is Some
        },
        loaded matches Err(err) ==> err == 2,
        loaded matches Ok(api) ==> {
            &&& routines.vfs_register == Some(api.register)
            &&& routines.vfs_find == Some(api.find)
            &&& routines.mprintf == Some(api.mprintf)
            &&& routines.log == Some(api.log)
            &&& routines.libversion_number == Some(api.libversion_number)
        },
{
}

} // verus!

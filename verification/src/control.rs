//! File control: SQLite passes pragmas to the VFS that way.

use crate::api::{self, SqliteApi};
use crate::text::{self, as_str, lossy_cstr};
use crate::vars;
use crate::vfs::{self, fallible, Pragma, PragmaErr, SqliteErr, Vfs, VfsResult};
use vstd::prelude::*;
use vstd::utf8;

verus! {

/// The status for the answer to a pragma.
pub open spec fn pragma_status(answer: Result<Option<String>, PragmaErr>) -> VfsResult<i32> {
    match answer {
        Ok(_) => Ok(vars::SQLITE_OK),
        Err(PragmaErr::NotFound) => Err(vars::SQLITE_NOTFOUND),
        Err(PragmaErr::Fail(err, _)) => Err(err),
    }
}

/// The text that goes with the answer to a pragma: what a success returned, or
/// why it failed.
pub open spec fn pragma_text(answer: Result<Option<String>, PragmaErr>) -> Option<String> {
    match answer {
        Ok(text) => text,
        Err(PragmaErr::NotFound) => None,
        Err(PragmaErr::Fail(_, text)) => text,
    }
}

/// Splits the answer to a pragma into its status and its text.
pub fn pragma_reply(answer: Result<Option<String>, PragmaErr>) -> (reply: (
    VfsResult<i32>,
    Option<String>,
))
    ensures
        reply == (pragma_status(answer), pragma_text(answer)),
{
    match answer {
        Ok(text) => (Ok(vars::SQLITE_OK), text),
        Err(PragmaErr::NotFound) => (Err(vars::SQLITE_NOTFOUND), None),
        Err(PragmaErr::Fail(err, text)) => (Err(err), text),
    }
}

/// The status of a pragma whose text had to be copied: a failure to copy comes
/// first.
pub fn after_copy(status: VfsResult<i32>, copied: VfsResult<()>) -> (outcome: VfsResult<i32>)
    ensures
        outcome == match copied {
            Err(err) => Err::<i32, SqliteErr>(err),
            Ok(_) => status,
        },
{
    copied?;
    status
}

/// Performs a file control operation. Only pragmas are known: `z_name` and
/// `z_arg` are the C strings that SQLite passes for the name of the pragma and
/// for its argument. A text in the answer is copied by `sqlite3_mprintf`, which
/// `call` calls, and stored in `p_text`.
pub fn x_file_control<
    T: Vfs,
    Register,
    Find,
    Mprintf,
    Log,
    LibversionNumber,
    P,
    Call: FnOnce(&Mprintf, &[u8], &[u8]) -> Option<P>,
>(
    p_file: Option<&mut T::Handle>,
    app_data: Option<(&T, &SqliteApi<Register, Find, Mprintf, Log, LibversionNumber>)>,
    op: i32,
    z_name: Option<&[u8]>,
    z_arg: Option<&[u8]>,
    call: Call,
    p_text: &mut Option<P>,
) -> (rc: i32)
    requires
        op == vars::SQLITE_FCNTL_PRAGMA && p_file is Some && z_name is Some ==> (
        app_data matches Some((_, api)) ==> forall|format: &[u8], argument: &[u8]|
            format@ == api::copy_format() && text::is_c_string(argument@)
                ==> #[trigger] call_requires(call, (&api.mprintf, format, argument))),
    ensures
        if op != vars::SQLITE_FCNTL_PRAGMA {
            &&& rc == vars::SQLITE_NOTFOUND
            &&& p_file matches Some(handle) ==> *final(handle) == *handle
            &&& *final(p_text) == *old(p_text)
        } else {
            match (p_file, app_data, z_name) {
                (Some(handle), Some((vfs, api)), Some(name)) => exists|
                    h: &mut T::Handle,
                    pragma: Pragma<'_>,
                    answer: Result<Option<String>, PragmaErr>,
                |
                    {
                        &&& *h == *handle
                        &&& *final(h) == *final(handle)
                        &&& text::is_text_of(pragma.name@, name@)
                        &&& match z_arg {
                            None => pragma.arg is None,
                            Some(bytes) => pragma.arg matches Some(arg) && text::is_text_of(
                                arg@,
                                bytes@,
                            ),
                        }
                        &&& #[trigger] call_ensures(T::pragma, (vfs, h, pragma), answer)
                        &&& match pragma_text(answer) {
                            None => {
                                &&& rc == vfs::code_of(pragma_status(answer))
                                &&& *final(p_text) == *old(p_text)
                            },
                            Some(text) => match text::c_string_spec(utf8::encode_utf8(text@)) {
                                Err(err) => rc == err && *final(p_text) == *old(p_text),
                                Ok(bytes) => exists|returned: Option<P>|
                                    {
                                        &&& #[trigger] api::mprintf_answers(
                                            call,
                                            &api.mprintf,
                                            bytes,
                                            returned,
                                        )
                                        &&& if returned is Some {
                                            &&& rc == vfs::code_of(pragma_status(answer))
                                            &&& *final(p_text) == returned
                                        } else {
                                            &&& rc == vars::SQLITE_NOMEM
                                            &&& *final(p_text) == *old(p_text)
                                        }
                                    },
                            },
                        }
                    },
                _ => {
                    &&& rc == vars::SQLITE_INTERNAL
                    &&& p_file matches Some(handle) ==> *final(handle) == *handle
                    &&& *final(p_text) == *old(p_text)
                },
            }
        },
{
    if op != vars::SQLITE_FCNTL_PRAGMA {
        return vars::SQLITE_NOTFOUND;
    }
    match (p_file, app_data, lossy_cstr(z_name)) {
        (Some(handle), Some((vfs, api)), Ok(name)) => {
            let arg = lossy_cstr(z_arg).ok();
            let pragma = Pragma {
                name: as_str(&name),
                arg: match &arg {
                    None => None,
                    Some(text) => Some(as_str(text)),
                },
            };
            let (status, text) = pragma_reply(vfs.pragma(handle, pragma));
            match text {
                None => fallible(status),
                Some(text) => {
                    proof {
                        let bytes = utf8::encode_utf8(text@);
                        if text::c_string_spec(bytes) is Ok {
                            text::law_c_string_reads_back(bytes);
                        }
                    }
                    fallible(after_copy(status, api.mprintf(call, text.as_str(), Some(p_text))))
                },
            }
        },
        _ => vars::SQLITE_INTERNAL,
    }
}

/// The answer to a pragma goes on as it is: a failure keeps its code, whatever it is and
/// whether or not there is a text; only success is success; and the text is the text.
pub proof fn law_pragma_answers_are_kept(
    answer: Result<Option<String>, PragmaErr>,
    status: VfsResult<i32>,
    message: Option<String>,
)
    requires
        call_ensures(pragma_reply, (answer,), (status, message)),
    ensures
        status is Ok <==> answer is Ok,
        status matches Ok(code) ==> code == 0,
        answer matches Ok(text) ==> message == text,
        answer matches Err(PragmaErr::Fail(err, text)) ==> status == Err::<i32, SqliteErr>(err)
            && message == text,
        answer == Err::<Option<String>, PragmaErr>(PragmaErr::NotFound) ==> status == Err::<
            i32,
            SqliteErr,
        >(12) && message is None,
{
}

/// A pragma reaches the VFS with the text of its name and, where there is one, of its
/// argument. SQLite gets the code of the answer: zero for success, `SQLITE_NOTFOUND` for a
/// pragma that is not known, and otherwise the code that it failed with. Where the answer
/// has a text, that text is copied by `mprintf`, as it is, and the copy goes back; a text
/// with the zero character in it, and a copy that fails, are errors, and no text goes back.
pub proof fn law_pragma_reaches_the_vfs<
    T: Vfs,
    Register,
    Find,
    Mprintf,
    Log,
    LibversionNumber,
    P,
    Call: FnOnce(&Mprintf, &[u8], &[u8]) -> Option<P>,
>(
    handle: &mut T::Handle,
    vfs: &T,
    api: &SqliteApi<Register, Find, Mprintf, Log, LibversionNumber>,
    name: &[u8],
    z_arg: Option<&[u8]>,
    call: Call,
    p_text: &mut Option<P>,
    rc: i32,
)
    requires
        call_ensures(
            x_file_control::<T, Register, Find, Mprintf, Log, LibversionNumber, P, Call>,
            (Some(handle), Some((vfs, api)), 14i32, Some(name), z_arg, call, p_text),
            rc,
        ),
    ensures
        exists|h: &mut T::Handle, pragma: Pragma<'_>, answer: Result<Option<String>, PragmaErr>|
            {
                let code = match answer {
                    Ok(_) => 0i32,
                    Err(PragmaErr::NotFound) => 12i32,
                    Err(PragmaErr::Fail(err, _)) => err,
                };
                let message = match answer {
                    Ok(text) => text,
                    Err(PragmaErr::NotFound) => None,
                    Err(PragmaErr::Fail(_, text)) => text,
                };
                &&& #[trigger] call_ensures(T::pragma, (vfs, h, pragma), answer)
                &&& *h == *old(handle) && *final(h) == *final(handle)
                &&& pragma.name@ == text::lossy_utf8(name@)
                &&& utf8::valid_utf8(name@) ==> pragma.name@ == utf8::decode_utf8(name@)
                &&& pragma.arg is Some <==> z_arg is Some
                &&& pragma.arg matches Some(arg) ==> (z_arg matches Some(bytes) ==> {
                    &&& arg@ == text::lossy_utf8(bytes@)
                    &&& utf8::valid_utf8(bytes@) ==> arg@ == utf8::decode_utf8(bytes@)
                })
                &&& message is None ==> rc == code && *final(p_text) == *old(p_text)
                &&& message matches Some(m) ==> (if m@.contains('\0') {
                    rc == 2 && *final(p_text) == *old(p_text)
                } else {
                    exists|format: &[u8], argument: &[u8], returned: Option<P>|
                        {
                            &&& #[trigger] call_ensures(
                                call,
                                (&api.mprintf, format, argument),
                                returned,
                            )
                            &&& format@ == seq![0x25u8, 0x73u8, 0u8]
                            &&& argument@ == utf8::encode_utf8(m@).push(0u8)
                            &&& returned is Some ==> rc == code && *final(p_text) == returned
                            &&& returned is None ==> rc == 7 && *final(p_text) == *old(p_text)
                        }
                })
            },
{
    assert forall|chars: Seq<char>| #[trigger]
        text::c_string_spec(utf8::encode_utf8(chars)) is Err <==> chars.contains('\0') by {
        text::law_zero_character_is_refused(chars);
    }
    assert forall|chars: Seq<char>| !chars.contains('\0') implies #[trigger] text::c_string_spec(
        utf8::encode_utf8(chars),
    ) == Ok::<Seq<u8>, SqliteErr>(utf8::encode_utf8(chars).push(0u8)) by {
        text::law_zero_character_is_refused(chars);
    }
}

/// A pragma that the VFS failed is a failure to SQLite: where no pragma of the VFS fails
/// with `SQLITE_OK`, SQLite is told of success only where the VFS succeeded.
pub proof fn law_failed_pragma_is_a_failure<
    T: Vfs,
    Register,
    Find,
    Mprintf,
    Log,
    LibversionNumber,
    P,
    Call: FnOnce(&Mprintf, &[u8], &[u8]) -> Option<P>,
>(
    handle: &mut T::Handle,
    vfs: &T,
    api: &SqliteApi<Register, Find, Mprintf, Log, LibversionNumber>,
    name: &[u8],
    z_arg: Option<&[u8]>,
    call: Call,
    p_text: &mut Option<P>,
    rc: i32,
)
    requires
        forall|h: &mut T::Handle, pragma: Pragma<'_>, text: Option<String>|
            !(#[trigger] call_ensures(
                T::pragma,
                (vfs, h, pragma),
                Err::<Option<String>, PragmaErr>(PragmaErr::Fail(0, text)),
            )),
        call_ensures(
            x_file_control::<T, Register, Find, Mprintf, Log, LibversionNumber, P, Call>,
            (Some(handle), Some((vfs, api)), 14i32, Some(name), z_arg, call, p_text),
            rc,
        ),
        rc == 0,
    ensures
        exists|h: &mut T::Handle, pragma: Pragma<'_>, text: Option<String>|
            {
                &&& #[trigger] call_ensures(
                    T::pragma,
                    (vfs, h, pragma),
                    Ok::<Option<String>, PragmaErr>(text),
                )
                &&& *h == *old(handle) && *final(h) == *final(handle)
            },
{
}

/// What is no pragma is not found, and what comes without a file, a VFS or a name is an
/// internal error; nothing changes then.
pub proof fn law_refused_file_control_changes_nothing<
    T: Vfs,
    Register,
    Find,
    Mprintf,
    Log,
    LibversionNumber,
    P,
    Call: FnOnce(&Mprintf, &[u8], &[u8]) -> Option<P>,
>(
    p_file: Option<&mut T::Handle>,
    app_data: Option<(&T, &SqliteApi<Register, Find, Mprintf, Log, LibversionNumber>)>,
    op: i32,
    z_name: Option<&[u8]>,
    z_arg: Option<&[u8]>,
    call: Call,
    p_text: &mut Option<P>,
    rc: i32,
)
    requires
        op != 14 || p_file is None || app_data is None || z_name is None,
        call_ensures(
            x_file_control::<T, Register, Find, Mprintf, Log, LibversionNumber, P, Call>,
            (p_file, app_data, op, z_name, z_arg, call, p_text),
            rc,
        ),
    ensures
        op != 14 ==> rc == 12,
        op == 14 ==> rc == 2,
        *final(p_text) == *old(p_text),
        p_file matches Some(handle) ==> *final(handle) == *handle,
{
}

} // verus!

//! Requests about paths: open, delete, access and the full path name.

use crate::base::AppData;
use crate::files::FileWrapper;
use crate::flags::{self, int_of, AccessFlags, OpenOpts};
use crate::text::{self, as_str, lossy_cstr};
use crate::vars;
use crate::vfs::{self, done, fallible, SqliteErr, Vfs, VfsHandle, VfsResult};
use std::borrow::Cow;
use vstd::prelude::*;
use vstd::utf8;

verus! {

/// Whether `path` is the text of the C string `z_name`, and absent where that is
/// null.
pub open spec fn is_path_of(path: Option<&str>, z_name: Option<&[u8]>) -> bool {
    match z_name {
        None => path is None,
        Some(bytes) => path matches Some(p) && text::is_text_of(p@, bytes@),
    }
}

/// The flags that SQLite gets back for an open file: those that it asked for,
/// and what the file turned out to be.
pub open spec fn open_flags_spec(flags: i32, readonly: bool, in_memory: bool) -> i32 {
    let with_readonly = if readonly {
        flags | vars::SQLITE_OPEN_READONLY
    } else {
        flags
    };
    if in_memory {
        with_readonly | vars::SQLITE_OPEN_MEMORY
    } else {
        with_readonly
    }
}

pub fn open_flags(flags: i32, readonly: bool, in_memory: bool) -> (out_flags: i32)
    ensures
        out_flags == open_flags_spec(flags, readonly, in_memory),
{
    let mut out_flags: i32 = flags;
    if readonly {
        out_flags = out_flags | vars::SQLITE_OPEN_READONLY;
    }
    if in_memory {
        out_flags = out_flags | vars::SQLITE_OPEN_MEMORY;
    }
    out_flags
}

/// Opening keeps every flag that was asked for, and sets no other but the read-only flag
/// and the in-memory flag, each exactly where the file is that.
pub proof fn law_open_flags(flags: i32, readonly: bool, in_memory: bool, bit: i32)
    ensures
        flags & bit != 0 ==> open_flags_spec(flags, readonly, in_memory) & bit != 0,
        readonly ==> open_flags_spec(flags, readonly, in_memory) & vars::SQLITE_OPEN_READONLY != 0,
        in_memory ==> open_flags_spec(flags, readonly, in_memory) & vars::SQLITE_OPEN_MEMORY != 0,
        bit & (vars::SQLITE_OPEN_READONLY | vars::SQLITE_OPEN_MEMORY) == 0 ==> open_flags_spec(
            flags,
            readonly,
            in_memory,
        ) & bit == flags & bit,
        !readonly ==> open_flags_spec(flags, readonly, in_memory) & 0x1i32 == flags & 0x1i32,
        !in_memory ==> open_flags_spec(flags, readonly, in_memory) & 0x80i32 == flags & 0x80i32,
        readonly ==> open_flags_spec(flags, readonly, in_memory) & 0x1i32 == 0x1i32,
        in_memory ==> open_flags_spec(flags, readonly, in_memory) & 0x80i32 == 0x80i32,
        !readonly && !in_memory ==> open_flags_spec(flags, readonly, in_memory) == flags,
{
    assert((flags | 0x80i32) & 0x1i32 == flags & 0x1i32 && (flags | 0x1i32) & 0x80i32 == flags
        & 0x80i32) by (bit_vector);
    assert((flags | 0x1i32) & 0x1i32 == 0x1i32 && ((flags | 0x1i32) | 0x80i32) & 0x1i32 == 0x1i32)
        by (bit_vector);
    assert((flags | 0x80i32) & 0x80i32 == 0x80i32 && ((flags | 0x1i32) | 0x80i32) & 0x80i32
        == 0x80i32) by (bit_vector);
    assert(flags & bit != 0 ==> (flags | 0x1i32) & bit != 0 && (flags | 0x80i32) & bit != 0 && ((flags
        | 0x1i32) | 0x80i32) & bit != 0) by (bit_vector);
    assert((flags | 0x1i32) & 0x1i32 != 0 && ((flags | 0x1i32) | 0x80i32) & 0x1i32 != 0)
        by (bit_vector);
    assert((flags | 0x80i32) & 0x80i32 != 0 && ((flags | 0x1i32) | 0x80i32) & 0x80i32 != 0)
        by (bit_vector);
    assert(bit & (0x1i32 | 0x80i32) == 0 ==> (flags | 0x1i32) & bit == flags & bit && (flags
        | 0x80i32) & bit == flags & bit && ((flags | 0x1i32) | 0x80i32) & bit == flags & bit)
        by (bit_vector);
}

/// Passes on the answer to an open: the file object, with this method table and
/// this VFS, goes to `p_file`, and the flags of the open file to `p_out_flags` where
/// SQLite wants them.
pub fn open_reply<M, V, H: VfsHandle>(
    answer: VfsResult<H>,
    methods: M,
    vfs: V,
    flags: i32,
    p_out_flags: Option<&mut i32>,
    p_file: &mut Option<FileWrapper<M, V, H>>,
) -> (outcome: VfsResult<i32>)
    ensures
        outcome == vfs::done_spec(answer),
        match answer {
            Err(_) => {
                &&& *final(p_file) == *old(p_file)
                &&& p_out_flags matches Some(out) ==> *final(out) == *out
            },
            Ok(handle) => {
                &&& *final(p_file) == Some(FileWrapper { methods, vfs, handle })
                &&& p_out_flags matches Some(out) ==> exists|readonly: bool, in_memory: bool|
                    {
                        &&& #[trigger] call_ensures(H::readonly, (&handle,), readonly)
                        &&& #[trigger] call_ensures(H::in_memory, (&handle,), in_memory)
                        &&& *final(out) == open_flags_spec(flags, readonly, in_memory)
                    }
            },
        },
{
    let handle = answer?;
    if let Some(out) = p_out_flags {
        let readonly = handle.readonly();
        let in_memory = handle.in_memory();
        *out = open_flags(flags, readonly, in_memory);
    }
    *p_file = Some(FileWrapper { methods, vfs, handle });
    Ok(vars::SQLITE_OK)
}

/// Opens a file on the VFS `p_vfs`, which has `app_data`. Where the VFS opened the
/// file, `p_file` becomes a file object with the handle, the VFS, and the method table
/// of the app data; otherwise it stays as it is.
pub fn x_open<'a, T: Vfs, B, M, A, V>(
    p_vfs: V,
    app_data: Option<&'a AppData<T, B, M, A>>,
    z_name: Option<&[u8]>,
    p_file: &mut Option<FileWrapper<&'a M, V, T::Handle>>,
    flags: i32,
    p_out_flags: Option<&mut i32>,
) -> (rc: i32)
    ensures
        match app_data {
            None => {
                &&& rc == vars::SQLITE_INTERNAL
                &&& *final(p_file) == *old(p_file)
                &&& p_out_flags matches Some(out) ==> *final(out) == *out
            },
            Some(app_data) => exists|path: Option<&str>, answer: VfsResult<T::Handle>|
                {
                    &&& is_path_of(path, z_name)
                    &&& #[trigger] call_ensures(
                        T::open,
                        (&app_data.vfs, path, OpenOpts { flags }),
                        answer,
                    )
                    &&& rc == vfs::status(answer)
                    &&& match answer {
                        Err(_) => {
                            &&& *final(p_file) == *old(p_file)
                            &&& p_out_flags matches Some(out) ==> *final(out) == *out
                        },
                        Ok(handle) => {
                            &&& *final(p_file) == Some(
                                FileWrapper { methods: &app_data.io_methods, vfs: p_vfs, handle },
                            )
                            &&& p_out_flags matches Some(out) ==> exists|
                                readonly: bool,
                                in_memory: bool,
                            |
                                {
                                    &&& #[trigger] call_ensures(
                                        T::Handle::readonly,
                                        (&handle,),
                                        readonly,
                                    )
                                    &&& #[trigger] call_ensures(
                                        T::Handle::in_memory,
                                        (&handle,),
                                        in_memory,
                                    )
                                    &&& *final(out) == open_flags_spec(flags, readonly, in_memory)
                                }
                        },
                    }
                },
        },
{
    let opts: OpenOpts = OpenOpts::from(flags);
    let name = lossy_cstr(z_name).ok();
    match app_data {
        None => vars::SQLITE_INTERNAL,
        Some(app_data) => {
            let path: Option<&str> = match &name {
                None => None,
                Some(text) => Some(as_str(text)),
            };
            let answer = app_data.vfs.open(path, opts);
            fallible(open_reply(answer, &app_data.io_methods, p_vfs, flags, p_out_flags, p_file))
        },
    }
}

/// The files of a VFS share one method table: whatever two opens are asked for, a file
/// object that one of them fills has the table of the app data, the same as one that
/// the other fills, and refers to the VFS that it was opened on.
pub proof fn law_open_files_share_a_table<'a, T: Vfs, B, M, A, V>(
    p_vfs: V,
    app_data: &'a AppData<T, B, M, A>,
    name_1: Option<&[u8]>,
    file_1: &mut Option<FileWrapper<&'a M, V, T::Handle>>,
    flags_1: i32,
    out_1: Option<&mut i32>,
    rc_1: i32,
    name_2: Option<&[u8]>,
    file_2: &mut Option<FileWrapper<&'a M, V, T::Handle>>,
    flags_2: i32,
    out_2: Option<&mut i32>,
    rc_2: i32,
)
    requires
        *file_1 is None,
        *file_2 is None,
        call_ensures(
            x_open::<T, B, M, A, V>,
            (p_vfs, Some(app_data), name_1, file_1, flags_1, out_1),
            rc_1,
        ),
        call_ensures(
            x_open::<T, B, M, A, V>,
            (p_vfs, Some(app_data), name_2, file_2, flags_2, out_2),
            rc_2,
        ),
    ensures
        *final(file_1) matches Some(opened) ==> rc_1 == vars::SQLITE_OK && opened.vfs == p_vfs
            && opened.methods == &app_data.io_methods,
        *final(file_1) matches Some(first) ==> (*final(file_2) matches Some(second) ==> first.methods
            == second.methods),
{
}

/// Deletes a file.
pub fn x_delete<T: Vfs>(p_vfs: Option<&T>, z_name: Option<&[u8]>) -> (rc: i32)
    ensures
        match (z_name, p_vfs) {
            (Some(bytes), Some(vfs)) => exists|path: &str, answer: VfsResult<()>|
                {
                    &&& text::is_text_of(path@, bytes@)
                    &&& #[trigger] call_ensures(T::delete, (vfs, path), answer)
                    &&& rc == vfs::status(answer)
                },
            _ => rc == vars::SQLITE_INTERNAL,
        },
{
    match (lossy_cstr(z_name), p_vfs) {
        (Ok(name), Some(vfs)) => fallible(done(vfs.delete(as_str(&name)))),
        _ => vars::SQLITE_INTERNAL,
    }
}

/// Passes on the answer to an access check.
pub fn access_reply(answer: VfsResult<bool>, p_res_out: Option<&mut i32>) -> (outcome: VfsResult<
    i32,
>)
    ensures
        match (answer, p_res_out) {
            (Err(err), None) => outcome == Err::<i32, SqliteErr>(err),
            (Err(err), Some(out)) => outcome == Err::<i32, SqliteErr>(err) && *final(out) == *out,
            (Ok(_), None) => outcome == Err::<i32, SqliteErr>(vars::SQLITE_IOERR_ACCESS),
            (Ok(yes), Some(out)) => outcome == Ok::<i32, SqliteErr>(vars::SQLITE_OK) && *final(out)
                == flags::bool_code(yes),
        },
{
    let yes = answer?;
    match p_res_out {
        None => Err(vars::SQLITE_IOERR_ACCESS),
        Some(out) => {
            *out = int_of(yes);
            Ok(vars::SQLITE_OK)
        },
    }
}

/// Asks whether a path exists or can be used.
pub fn x_access<T: Vfs>(
    p_vfs: Option<&T>,
    z_name: Option<&[u8]>,
    flags: i32,
    p_res_out: Option<&mut i32>,
) -> (rc: i32)
    ensures
        match (z_name, p_vfs) {
            (Some(bytes), Some(vfs)) => exists|path: &str, answer: VfsResult<bool>|
                {
                    &&& text::is_text_of(path@, bytes@)
                    &&& #[trigger] call_ensures(T::access, (vfs, path, flags::access_of(flags)), answer)
                    &&& match (answer, p_res_out) {
                        (Err(err), None) => rc == err,
                        (Err(err), Some(out)) => rc == err && *final(out) == *out,
                        (Ok(_), None) => rc == vars::SQLITE_IOERR_ACCESS,
                        (Ok(yes), Some(out)) => rc == vars::SQLITE_OK && *final(out) == flags::bool_code(
                            yes,
                        ),
                    }
                },
            _ => {
                &&& rc == vars::SQLITE_INTERNAL
                &&& p_res_out matches Some(out) ==> *final(out) == *out
            },
        },
{
    match (lossy_cstr(z_name), p_vfs) {
        (Ok(name), Some(vfs)) => fallible(
            access_reply(vfs.access(as_str(&name), AccessFlags::from(flags)), p_res_out),
        ),
        _ => vars::SQLITE_INTERNAL,
    }
}

/// How many bytes of a name of `len` bytes fit into a buffer of `size` bytes,
/// beside the terminator.
pub open spec fn fitting(len: nat, size: nat) -> int {
    if len < size {
        len as int
    } else {
        size - 1
    }
}

/// A buffer after a name was copied into it: as much of the name as fits, a zero
/// byte, and what stood behind that before.
pub open spec fn path_buffer(name: Seq<u8>, before: Seq<u8>) -> Seq<u8> {
    let kept = fitting(name.len(), before.len());
    name.take(kept).push(0u8) + before.skip(kept + 1)
}

/// Copies a name into a buffer as a C string, cut short where it does not fit.
pub fn copy_path(name: &[u8], out: &mut [u8])
    requires
        old(out)@.len() > 0,
    ensures
        final(out)@ == path_buffer(name@, old(out)@),
{
    let kept: usize = if name.len() < out.len() {
        name.len()
    } else {
        out.len() - 1
    };
    let mut i: usize = 0;
    while i < kept
        invariant
            i <= kept,
            kept == fitting(name@.len(), old(out)@.len()),
            old(out)@.len() > 0,
            out@.len() == old(out)@.len(),
            out@ == name@.take(i as int) + old(out)@.skip(i as int),
        decreases kept - i,
    {
        out[i] = name[i];
        i = i + 1;
    }
    out[kept] = 0;
}

/// Passes on a canonical path by copying it into SQLite's buffer of `n_out` bytes.
pub fn full_pathname_reply(answer: VfsResult<Cow<'_, str>>, n_out: i32, out: &mut [u8]) -> (outcome:
    VfsResult<i32>)
    requires
        n_out >= 0 ==> old(out)@.len() == n_out,
        answer is Ok ==> n_out != 0,
    ensures
        match answer {
            Err(err) => outcome == Err::<i32, SqliteErr>(err) && final(out)@ == old(out)@,
            Ok(name) => if n_out < 0 {
                outcome == Err::<i32, SqliteErr>(vars::SQLITE_INTERNAL) && final(out)@ == old(out)@
            } else {
                outcome == Ok::<i32, SqliteErr>(vars::SQLITE_OK) && final(out)@ == path_buffer(
                    utf8::encode_utf8(name@),
                    old(out)@,
                )
            },
        },
{
    let name = answer?;
    if n_out < 0 {
        return Err(vars::SQLITE_INTERNAL);
    }
    copy_path(as_str(&name).as_bytes(), out);
    Ok(vars::SQLITE_OK)
}

/// Writes the canonical version of a path into SQLite's buffer, `out`, of `n_out`
/// bytes. There has to be room for the terminator where there is a path to write.
pub fn x_full_pathname<T: Vfs>(
    p_vfs: Option<&T>,
    z_name: Option<&[u8]>,
    n_out: i32,
    out: &mut [u8],
) -> (rc: i32)
    requires
        n_out >= 0 ==> old(out)@.len() == n_out,
        z_name is Some && n_out == 0 ==> (p_vfs matches Some(vfs) ==> forall|
            path: Cow<'_, str>,
            answer: VfsResult<Cow<'_, str>>,
        |
            text::is_text_of(path@, z_name->0@) && #[trigger] call_ensures(
                T::canonical_path,
                (vfs, path),
                answer,
            ) ==> answer is Err),
    ensures
        match (z_name, p_vfs) {
            (Some(bytes), Some(vfs)) => exists|path: Cow<'_, str>, answer: VfsResult<Cow<'_, str>>|
                {
                    &&& text::is_text_of(path@, bytes@)
                    &&& #[trigger] call_ensures(T::canonical_path, (vfs, path), answer)
                    &&& match answer {
                        Err(err) => rc == err && final(out)@ == old(out)@,
                        Ok(name) => if n_out < 0 {
                            rc == vars::SQLITE_INTERNAL && final(out)@ == old(out)@
                        } else {
                            rc == vars::SQLITE_OK && final(out)@ == path_buffer(
                                utf8::encode_utf8(name@),
                                old(out)@,
                            )
                        },
                    }
                },
            _ => rc == vars::SQLITE_INTERNAL && final(out)@ == old(out)@,
        },
{
    match (lossy_cstr(z_name), p_vfs) {
        (Ok(name), Some(vfs)) => fallible(
            full_pathname_reply(vfs.canonical_path(name), n_out, out),
        ),
        _ => vars::SQLITE_INTERNAL,
    }
}

/// Writes the canonical version of a path into SQLite's buffer, as `x_full_pathname`
/// does, also where nothing is known of the VFS. There is no answer where the path has
/// a canonical version and the buffer has no room, not even for the terminator.
pub fn x_full_pathname_checked<T: Vfs>(
    p_vfs: Option<&T>,
    z_name: Option<&[u8]>,
    n_out: i32,
    out: &mut [u8],
) -> (checked: Option<i32>)
    requires
        n_out >= 0 ==> old(out)@.len() == n_out,
    ensures
        match (z_name, p_vfs) {
            (Some(bytes), Some(vfs)) => exists|path: Cow<'_, str>, answer: VfsResult<Cow<'_, str>>|
                {
                    &&& text::is_text_of(path@, bytes@)
                    &&& #[trigger] call_ensures(T::canonical_path, (vfs, path), answer)
                    &&& match answer {
                        Err(err) => checked == Some(err) && final(out)@ == old(out)@,
                        Ok(name) => if n_out < 0 {
                            checked == Some(vars::SQLITE_INTERNAL) && final(out)@ == old(out)@
                        } else if n_out == 0 {
                            checked is None && final(out)@ == old(out)@
                        } else {
                            checked == Some(vars::SQLITE_OK) && final(out)@ == path_buffer(
                                utf8::encode_utf8(name@),
                                old(out)@,
                            )
                        },
                    }
                },
            _ => checked == Some(vars::SQLITE_INTERNAL) && final(out)@ == old(out)@,
        },
{
    if n_out != 0 {
        return Some(x_full_pathname(p_vfs, z_name, n_out, out));
    }
    match (lossy_cstr(z_name), p_vfs) {
        (Ok(name), Some(vfs)) => vfs.canonical_path(name).err(),
        _ => Some(vars::SQLITE_INTERNAL),
    }
}

/// A full path name never leaves the buffer, and is always a C string: what is
/// read from the buffer is the part of the name that fits, as long as that part
/// holds no zero byte; it is the whole name where the name is shorter than the
/// buffer.
pub proof fn law_path_buffer_reads_as_name(name: Seq<u8>, before: Seq<u8>)
    requires
        before.len() > 0,
    ensures
        path_buffer(name, before).len() == before.len(),
        path_buffer(name, before).contains(0u8),
        !name.take(fitting(name.len(), before.len())).contains(0u8) ==> text::reads_as(
            path_buffer(name, before),
            name.take(fitting(name.len(), before.len())),
        ),
        name.len() < before.len() ==> name.take(fitting(name.len(), before.len())) == name,
{
    let kept = fitting(name.len(), before.len());
    let after = path_buffer(name, before);
    assert(after[kept] == 0u8);
    assert(after.take(kept) == name.take(kept));
    if name.len() < before.len() {
        assert(name.take(kept) == name);
    }
}

/// A VFS whose canonical path is the path itself hands a name that is UTF-8 back to
/// SQLite byte for byte, as long as the name fits into the buffer.
pub proof fn law_utf8_name_comes_back(bytes: Seq<u8>, path: Seq<char>, before: Seq<u8>)
    requires
        text::is_text_of(path, bytes),
        utf8::valid_utf8(bytes),
        !bytes.contains(0u8),
        bytes.len() < before.len(),
    ensures
        text::reads_as(path_buffer(utf8::encode_utf8(path), before), bytes),
{
    text::law_utf8_survives(bytes);
    law_path_buffer_reads_as_name(bytes, before);
}

/// The flags that go back have the read-only bit exactly where it was asked for or the
/// file is read-only, the in-memory bit exactly where it was asked for or the file is in
/// memory, and every other bit exactly where it was asked for.
pub proof fn law_open_flags_are_what_the_file_is(
    flags: i32,
    readonly: bool,
    in_memory: bool,
    out_flags: i32,
)
    requires
        call_ensures(open_flags, (flags, readonly, in_memory), out_flags),
    ensures
        out_flags & 0x1i32 != 0 <==> readonly || flags & 0x1i32 != 0,
        out_flags & 0x80i32 != 0 <==> in_memory || flags & 0x80i32 != 0,
        out_flags & !0x81i32 == flags & !0x81i32,
{
    law_open_flags(flags, readonly, in_memory, !0x81i32);
    assert(!0x81i32 & (0x1i32 | 0x80i32) == 0) by (bit_vector);
}

/// An open is the VFS's to answer: it gets the text of the name, or no path where there is
/// no name, and the flags as they came. Where it opens the file, SQLite is told of success
/// and gets the handle, the method table of the app data, the VFS, and flags that say
/// what was asked for and what the file is. Where it fails, its code goes back and nothing
/// changes.
pub proof fn law_open_reaches_the_vfs<'a, T: Vfs, B, M, A, V>(
    p_vfs: V,
    app_data: &'a AppData<T, B, M, A>,
    z_name: Option<&[u8]>,
    p_file: &mut Option<FileWrapper<&'a M, V, T::Handle>>,
    flags: i32,
    p_out_flags: Option<&mut i32>,
    rc: i32,
)
    requires
        call_ensures(
            x_open::<T, B, M, A, V>,
            (p_vfs, Some(app_data), z_name, p_file, flags, p_out_flags),
            rc,
        ),
    ensures
        exists|path: Option<&str>, opts: OpenOpts, answer: VfsResult<T::Handle>|
            {
                &&& #[trigger] call_ensures(T::open, (&app_data.vfs, path, opts), answer)
                &&& opts.flags == flags
                &&& path is Some <==> z_name is Some
                &&& path matches Some(p) ==> (z_name matches Some(bytes) ==> {
                    &&& p@ == text::lossy_utf8(bytes@)
                    &&& utf8::valid_utf8(bytes@) ==> p@ == utf8::decode_utf8(bytes@)
                })
                &&& answer matches Err(err) ==> {
                    &&& rc == err
                    &&& *final(p_file) == *old(p_file)
                    &&& p_out_flags matches Some(out) ==> *final(out) == *out
                }
                &&& answer matches Ok(handle) ==> {
                    &&& rc == 0
                    &&& *final(p_file) matches Some(file) && {
                        &&& file.handle == handle
                        &&& file.methods == &app_data.io_methods
                        &&& file.vfs == p_vfs
                    }
                    &&& p_out_flags matches Some(out) ==> exists|readonly: bool, in_memory: bool|
                        {
                            &&& #[trigger] call_ensures(T::Handle::readonly, (&handle,), readonly)
                            &&& #[trigger] call_ensures(T::Handle::in_memory, (&handle,), in_memory)
                            &&& *final(out) & 0x1i32 != 0 <==> readonly || flags & 0x1i32 != 0
                            &&& *final(out) & 0x80i32 != 0 <==> in_memory || flags & 0x80i32 != 0
                            &&& *final(out) & !0x81i32 == flags & !0x81i32
                        }
                }
            },
{
    assert forall|readonly: bool, in_memory: bool| #![trigger open_flags_spec(flags, readonly, in_memory)]
        {
            let out_flags = open_flags_spec(flags, readonly, in_memory);
            &&& out_flags & 0x1i32 != 0 <==> readonly || flags & 0x1i32 != 0
            &&& out_flags & 0x80i32 != 0 <==> in_memory || flags & 0x80i32 != 0
            &&& out_flags & !0x81i32 == flags & !0x81i32
        } by {
        law_open_flags(flags, readonly, in_memory, !0x81i32);
        assert(!0x81i32 & (0x1i32 | 0x80i32) == 0) by (bit_vector);
    }
}

/// An open on a VFS without app data is an internal error, and changes nothing.
pub proof fn law_open_needs_app_data<'a, T: Vfs, B, M, A, V>(
    p_vfs: V,
    z_name: Option<&[u8]>,
    p_file: &mut Option<FileWrapper<&'a M, V, T::Handle>>,
    flags: i32,
    p_out_flags: Option<&mut i32>,
    rc: i32,
)
    requires
        call_ensures(
            x_open::<T, B, M, A, V>,
            (p_vfs, None, z_name, p_file, flags, p_out_flags),
            rc,
        ),
    ensures
        rc == 2,
        *final(p_file) == *old(p_file),
        p_out_flags matches Some(out) ==> *final(out) == *out,
{
}

/// A delete reaches the VFS with the text of the name, and the VFS's answer goes back;
/// without a name or a VFS it is an internal error.
pub proof fn law_delete_reaches_the_vfs<T: Vfs>(
    p_vfs: Option<&T>,
    z_name: Option<&[u8]>,
    rc: i32,
)
    requires
        call_ensures(x_delete::<T>, (p_vfs, z_name), rc),
    ensures
        p_vfs is None || z_name is None ==> rc == 2,
        p_vfs matches Some(vfs) ==> (z_name matches Some(bytes) ==> exists|
            path: &str,
            answer: VfsResult<()>,
        |
            {
                &&& #[trigger] call_ensures(T::delete, (vfs, path), answer)
                &&& path@ == text::lossy_utf8(bytes@)
                &&& utf8::valid_utf8(bytes@) ==> path@ == utf8::decode_utf8(bytes@)
                &&& rc == match answer {
                    Ok(_) => 0i32,
                    Err(err) => err,
                }
            }),
{
}

/// An access check reaches the VFS with the text of the name and the check that the number
/// asks for: yes goes back as one, no as zero. An error leaves the place for the answer as
/// it is, and it is an error that there is no such place.
pub proof fn law_access_reaches_the_vfs<T: Vfs>(
    vfs: &T,
    bytes: &[u8],
    flags: i32,
    p_res_out: Option<&mut i32>,
    rc: i32,
)
    requires
        call_ensures(x_access::<T>, (Some(vfs), Some(bytes), flags, p_res_out), rc),
    ensures
        exists|path: &str, check: AccessFlags, answer: VfsResult<bool>|
            {
                &&& #[trigger] call_ensures(T::access, (vfs, path, check), answer)
                &&& path@ == text::lossy_utf8(bytes@)
                &&& utf8::valid_utf8(bytes@) ==> path@ == utf8::decode_utf8(bytes@)
                &&& check is Exists <==> flags == 0
                &&& check is ReadWrite <==> flags == 1
                &&& check is Read <==> flags == 2
                &&& check matches AccessFlags::Other(number) ==> number == flags
                &&& answer matches Err(err) ==> rc == err
                &&& answer is Ok && p_res_out is None ==> rc == 3338
                &&& p_res_out matches Some(out) ==> (answer is Err ==> *final(out) == *out)
                &&& p_res_out matches Some(out) ==> (answer matches Ok(yes) ==> rc == 0 && (yes
                    ==> *final(out) == 1) && (!yes ==> *final(out) == 0))
            },
{
    flags::law_access_checks_have_numbers(flags);
}

/// An access check without a name or a VFS is an internal error, and changes nothing.
pub proof fn law_access_needs_name_and_vfs<T: Vfs>(
    p_vfs: Option<&T>,
    z_name: Option<&[u8]>,
    flags: i32,
    p_res_out: Option<&mut i32>,
    rc: i32,
)
    requires
        p_vfs is None || z_name is None,
        call_ensures(x_access::<T>, (p_vfs, z_name, flags, p_res_out), rc),
    ensures
        rc == 2,
        p_res_out matches Some(out) ==> *final(out) == *out,
{
}

/// As much of a name as leaves room for the terminator is copied, byte for byte; the
/// terminator follows it; and what stands behind that stays.
pub proof fn law_copy_fills_the_buffer(name: &[u8], out: &mut [u8], i: int)
    requires
        out@.len() > 0,
        0 <= i < out@.len(),
        call_ensures(copy_path, (name, out), ()),
    ensures
        final(out)@.len() == old(out)@.len(),
        i < name@.len() && i < old(out)@.len() - 1 ==> final(out)@[i] == name@[i],
        i == name@.len() || (i < name@.len() && i == old(out)@.len() - 1) ==> final(out)@[i] == 0,
        i > name@.len() ==> final(out)@[i] == old(out)@[i],
{
}

/// A full path name is what the VFS makes of the text of the name. Where there is one and a
/// buffer for it, as much of it as leaves room for the terminator is in the buffer, byte
/// for byte, and then the terminator; what stands behind that stays.
pub proof fn law_full_pathname_is_the_canonical_path<T: Vfs>(
    vfs: &T,
    bytes: &[u8],
    n_out: i32,
    out: &mut [u8],
    rc: i32,
)
    requires
        0 < n_out,
        out@.len() == n_out,
        call_ensures(x_full_pathname::<T>, (Some(vfs), Some(bytes), n_out, out), rc),
    ensures
        exists|path: Cow<'_, str>, answer: VfsResult<Cow<'_, str>>|
            {
                &&& #[trigger] call_ensures(T::canonical_path, (vfs, path), answer)
                &&& path@ == text::lossy_utf8(bytes@)
                &&& utf8::valid_utf8(bytes@) ==> path@ == utf8::decode_utf8(bytes@)
                &&& answer matches Err(err) ==> rc == err && final(out)@ == old(out)@
                &&& answer matches Ok(full) ==> {
                    &&& rc == 0
                    &&& final(out)@.len() == n_out
                    &&& forall|i: int|
                        0 <= i < n_out ==> #[trigger] final(out)@[i] == (if i < utf8::encode_utf8(
                            full@,
                        ).len() && i < n_out - 1 {
                            utf8::encode_utf8(full@)[i]
                        } else if i <= utf8::encode_utf8(full@).len() {
                            0u8
                        } else {
                            old(out)@[i]
                        })
                }
            },
{
}

/// A full path name that cannot be written leaves the buffer as it is. Without a name or a
/// VFS that is an internal error; an error of the VFS goes back; and so does an internal
/// error where the size of the buffer is negative.
pub proof fn law_refused_full_pathname_changes_nothing<T: Vfs>(
    p_vfs: Option<&T>,
    z_name: Option<&[u8]>,
    n_out: i32,
    out: &mut [u8],
    rc: i32,
)
    requires
        p_vfs is None || z_name is None || n_out < 0,
        call_ensures(x_full_pathname::<T>, (p_vfs, z_name, n_out, out), rc),
    ensures
        final(out)@ == old(out)@,
        p_vfs is None || z_name is None ==> rc == 2,
        p_vfs matches Some(vfs) ==> (z_name matches Some(bytes) ==> exists|
            path: Cow<'_, str>,
            answer: VfsResult<Cow<'_, str>>,
        |
            {
                &&& #[trigger] call_ensures(T::canonical_path, (vfs, path), answer)
                &&& path@ == text::lossy_utf8(bytes@)
                &&& answer matches Err(err) ==> rc == err
                &&& answer is Ok ==> rc == 2
            }),
{
}

/// The checked form has an answer unless the buffer is empty and the VFS has a path for it,
/// and it is the VFS's error that an empty buffer otherwise gets. A buffer that is not empty
/// is filled as by the other form.
pub proof fn law_checked_full_pathname_lacks_only_room<T: Vfs>(
    vfs: &T,
    bytes: &[u8],
    n_out: i32,
    out: &mut [u8],
    checked: Option<i32>,
)
    requires
        call_ensures(x_full_pathname_checked::<T>, (Some(vfs), Some(bytes), n_out, out), checked),
    ensures
        exists|path: Cow<'_, str>, answer: VfsResult<Cow<'_, str>>|
            {
                &&& #[trigger] call_ensures(T::canonical_path, (vfs, path), answer)
                &&& path@ == text::lossy_utf8(bytes@)
                &&& checked is None <==> n_out == 0 && answer is Ok
                &&& answer matches Err(err) ==> checked == Some(err)
                &&& answer is Ok && n_out < 0 ==> checked == Some(2i32)
                &&& answer is Ok && n_out > 0 ==> checked == Some(0i32)
                &&& answer is Err || n_out <= 0 ==> final(out)@ == old(out)@
                &&& answer matches Ok(full) ==> (n_out > 0 && old(out)@.len() == n_out ==> {
                    &&& final(out)@.len() == n_out
                    &&& forall|i: int|
                        0 <= i < n_out ==> #[trigger] final(out)@[i] == (if i < utf8::encode_utf8(
                            full@,
                        ).len() && i < n_out - 1 {
                            utf8::encode_utf8(full@)[i]
                        } else if i <= utf8::encode_utf8(full@).len() {
                            0u8
                        } else {
                            old(out)@[i]
                        })
                })
            },
{
}

/// The checked form, without a name or a VFS, is an internal error, and changes nothing.
pub proof fn law_checked_full_pathname_needs_name_and_vfs<T: Vfs>(
    p_vfs: Option<&T>,
    z_name: Option<&[u8]>,
    n_out: i32,
    out: &mut [u8],
    checked: Option<i32>,
)
    requires
        p_vfs is None || z_name is None,
        call_ensures(x_full_pathname_checked::<T>, (p_vfs, z_name, n_out, out), checked),
    ensures
        checked == Some(2i32),
        final(out)@ == old(out)@,
{
}

} // verus!

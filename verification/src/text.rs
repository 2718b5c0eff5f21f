//! Text that crosses the C boundary: bytes that SQLite hands over, which need
//! not be UTF-8, and C strings that go back, which end at their first zero byte.

use crate::vars;
use crate::vfs::VfsResult;
use std::borrow::Cow;
use vstd::prelude::*;
use vstd::utf8;

verus! {

/// The text that `String::from_utf8_lossy` makes of some bytes.
pub uninterp spec fn lossy_utf8(bytes: Seq<u8>) -> Seq<char>;

/// Whether `text` is what a reader makes of `bytes`: the text that they encode
/// where they are UTF-8, and otherwise one in which replacement characters stand
/// for what cannot be read.
pub open spec fn is_text_of(text: Seq<char>, bytes: Seq<u8>) -> bool {
    &&& text == lossy_utf8(bytes)
    &&& utf8::valid_utf8(bytes) ==> text == utf8::decode_utf8(bytes)
    &&& !utf8::valid_utf8(bytes) ==> text.contains('\u{FFFD}')
}

/// Calls `String::from_utf8_lossy`. Claimed of it: the text depends on the bytes
/// alone; bytes that are UTF-8 give the text that they encode, without a copy; and
/// of other bytes a new string is made, in which at least one stretch became the
/// replacement character. How many replacement characters stand for an invalid
/// stretch is left unsaid.
#[verifier::external_body]
fn from_utf8_lossy<'a>(bytes: &'a [u8]) -> (text: Cow<'a, str>)
    ensures
        text@ == lossy_utf8(bytes@),
        utf8::valid_utf8(bytes@) ==> text@ == utf8::decode_utf8(bytes@) && text is Borrowed,
        !utf8::valid_utf8(bytes@) ==> text@.contains('\u{FFFD}') && text is Owned,
{
    String::from_utf8_lossy(bytes)
}

/// The text of a C string, given by the bytes before its terminator; a null
/// pointer is refused. The text is copied only where it is not UTF-8.
pub fn lossy_cstr<'a>(p: Option<&'a [u8]>) -> (text: VfsResult<Cow<'a, str>>)
    ensures
        match p {
            None => text == Err::<Cow<'a, str>, i32>(vars::SQLITE_INTERNAL),
            Some(bytes) => {
                &&& text matches Ok(s)
                &&& is_text_of(s@, bytes@)
                &&& s is Borrowed <==> utf8::valid_utf8(bytes@)
            },
        },
{
    match p {
        None => Err(vars::SQLITE_INTERNAL),
        Some(bytes) => Ok(from_utf8_lossy(bytes)),
    }
}

/// A text that may be borrowed, as a string slice.
pub fn as_str<'b>(text: &'b Cow<'_, str>) -> (s: &'b str)
    ensures
        s@ == text@,
{
    match text {
        Cow::Borrowed(borrowed) => borrowed,
        Cow::Owned(owned) => owned.as_str(),
    }
}

/// Whether a C reader that starts at the front of `buffer` finds exactly `text`:
/// the bytes of `text`, none of them zero, and then a zero byte.
pub open spec fn reads_as(buffer: Seq<u8>, text: Seq<u8>) -> bool {
    &&& text.len() < buffer.len()
    &&& buffer.take(text.len() as int) == text
    &&& buffer[text.len() as int] == 0
    &&& !text.contains(0u8)
}

/// Whether `bytes` are a C string with nothing behind it: the last byte is zero,
/// and no other.
pub open spec fn is_c_string(bytes: Seq<u8>) -> bool {
    &&& bytes.len() > 0
    &&& bytes.last() == 0
    &&& !bytes.drop_last().contains(0u8)
}

/// The bytes of a C string that holds `text`, or the refusal of a text with a
/// zero byte in it.
pub open spec fn c_string_spec(text: Seq<u8>) -> VfsResult<Seq<u8>> {
    if text.contains(0u8) {
        Err(vars::SQLITE_INTERNAL)
    } else {
        Ok(text.push(0u8))
    }
}

/// Makes a C string of `s`; a text with a zero byte in it is refused.
pub fn c_string(s: &str) -> (bytes: VfsResult<Vec<u8>>)
    ensures
        match bytes {
            Ok(b) => c_string_spec(utf8::encode_utf8(s@)) == Ok::<Seq<u8>, i32>(b@),
            Err(err) => c_string_spec(utf8::encode_utf8(s@)) == Err::<Seq<u8>, i32>(err),
        },
{
    let text: &[u8] = s.as_bytes();
    let mut bytes: Vec<u8> = Vec::new();
    let mut i: usize = 0;
    while i < text.len()
        invariant
            i <= text@.len(),
            text@ == utf8::encode_utf8(s@),
            bytes@ == text@.take(i as int),
            !bytes@.contains(0u8),
        decreases text@.len() - i,
    {
        if text[i] == 0 {
            return Err(vars::SQLITE_INTERNAL);
        }
        proof {
            assert(text@.take(i + 1) == text@.take(i as int).push(text@[i as int]));
        }
        bytes.push(text[i]);
        i = i + 1;
    }
    proof {
        assert(text@.take(text@.len() as int) == text@);
    }
    bytes.push(0);
    Ok(bytes)
}

/// No two C strings can be read from the same buffer.
pub proof fn law_reading_is_unique(buffer: Seq<u8>, a: Seq<u8>, b: Seq<u8>)
    requires
        reads_as(buffer, a),
        reads_as(buffer, b),
    ensures
        a == b,
{
    if a.len() < b.len() {
        assert(b[a.len() as int] == buffer.take(b.len() as int)[a.len() as int]);
    } else if b.len() < a.len() {
        assert(a[b.len() as int] == buffer.take(a.len() as int)[b.len() as int]);
    }
}

/// A C string, once it is made, reads as the text that it was made of.
pub proof fn law_c_string_reads_back(text: Seq<u8>)
    requires
        c_string_spec(text) is Ok,
    ensures
        is_c_string(c_string_spec(text)->Ok_0),
        reads_as(c_string_spec(text)->Ok_0, text),
{
    assert(text.push(0u8).drop_last() == text);
    assert(text.push(0u8).take(text.len() as int) == text);
}

/// Only the zero character has a zero byte in its encoding.
proof fn lemma_zero_byte_of_scalar(c: char)
    ensures
        utf8::encode_scalar(c as u32).contains(0u8) <==> c == '\0',
{
    let v = c as u32;
    let bytes = utf8::encode_scalar(v);
    utf8::char_is_scalar(c);
    assert(v <= 0x7f ==> (v & 0x7f) as u8 == v) by (bit_vector);
    assert(0xC0u8 | ((v >> 6) & 0x1F) as u8 != 0 && 0xE0u8 | ((v >> 12) & 0x0F) as u8 != 0 && 0xF0u8
        | ((v >> 18) & 0x7) as u8 != 0) by (bit_vector);
    assert(0x80u8 | (v & 0x3F) as u8 != 0 && 0x80u8 | ((v >> 6) & 0x3F) as u8 != 0 && 0x80u8 | ((v
        >> 12) & 0x3F) as u8 != 0) by (bit_vector);
    if c == '\0' {
        assert(bytes[0] == 0u8);
    }
}

/// A text is refused as a C string exactly where the zero character is in it.
pub proof fn law_zero_character_is_refused(chars: Seq<char>)
    ensures
        c_string_spec(utf8::encode_utf8(chars)) is Err <==> chars.contains('\0'),
    decreases chars.len(),
{
    if chars.len() > 0 {
        let first = utf8::encode_scalar(chars[0] as u32);
        let rest = utf8::encode_utf8(chars.drop_first());
        let bytes = utf8::encode_utf8(chars);
        lemma_zero_byte_of_scalar(chars[0]);
        law_zero_character_is_refused(chars.drop_first());
        if first.contains(0u8) {
            let i = choose|i: int| 0 <= i < first.len() && first[i] == 0u8;
            assert(bytes[i] == 0u8);
        }
        if rest.contains(0u8) {
            let i = choose|i: int| 0 <= i < rest.len() && rest[i] == 0u8;
            assert(bytes[first.len() + i] == 0u8);
        }
        if bytes.contains(0u8) {
            let i = choose|i: int| 0 <= i < bytes.len() && bytes[i] == 0u8;
            if i < first.len() {
                assert(first[i] == 0u8);
            } else {
                assert(rest[i - first.len()] == 0u8);
            }
        }
        if chars.contains('\0') && chars[0] != '\0' {
            let i = choose|i: int| 0 <= i < chars.len() && chars[i] == '\0';
            assert(chars.drop_first()[i - 1] == '\0');
        }
        if chars.drop_first().contains('\0') {
            let i = choose|i: int| 0 <= i < chars.len() - 1 && chars.drop_first()[i] == '\0';
            assert(chars[i + 1] == '\0');
        }
    }
}

/// Bytes that are UTF-8 survive the way into a `String` and back unchanged.
pub proof fn law_utf8_survives(bytes: Seq<u8>)
    requires
        utf8::valid_utf8(bytes),
    ensures
        utf8::encode_utf8(utf8::decode_utf8(bytes)) == bytes,
{
    utf8::decode_utf8_encode_utf8(bytes);
}

/// Where a text becomes a C string, that is the text with a zero byte behind it;
/// otherwise the zero character is in the text, and the refusal is
/// `SQLITE_INTERNAL`.
pub proof fn law_c_string_is_the_text_and_a_zero(s: &str, bytes: VfsResult<Vec<u8>>)
    requires
        call_ensures(c_string, (s,), bytes),
    ensures
        bytes is Err <==> s@.contains('\0'),
        bytes matches Err(err) ==> err == 2,
        bytes matches Ok(b) ==> b@ == utf8::encode_utf8(s@).push(0u8),
{
    law_zero_character_is_refused(s@);
}

/// The same bytes always read as the same text; bytes that are UTF-8 read as what they
/// encode; and only a null pointer is refused, with `SQLITE_INTERNAL`.
pub proof fn law_bytes_read_as_one_text(
    p: Option<&[u8]>,
    q: Option<&[u8]>,
    first: VfsResult<Cow<'_, str>>,
    second: VfsResult<Cow<'_, str>>,
)
    requires
        call_ensures(lossy_cstr, (p,), first),
        call_ensures(lossy_cstr, (q,), second),
    ensures
        first is Ok <==> p is Some,
        first matches Err(err) ==> err == 2,
        p matches Some(bytes) ==> (first matches Ok(a) ==> {
            &&& utf8::valid_utf8(bytes@) ==> utf8::encode_utf8(a@) == bytes@
            &&& !utf8::valid_utf8(bytes@) ==> a@.contains('\u{FFFD}')
            &&& q matches Some(others) ==> (second matches Ok(b) ==> (others@ == bytes@ ==> b@ == a@))
        }),
{
    if let Some(bytes) = p {
        if utf8::valid_utf8(bytes@) {
            law_utf8_survives(bytes@);
        }
    }
}

} // verus!

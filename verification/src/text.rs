//! Byte-string preparation for the native boundary, and text decoding.
//!
//! The native engine takes null-terminated byte strings. A string holding an
//! embedded null byte cannot be represented that way and is rejected here,
//! before any native call is attempted. In the other direction, byte strings
//! copied out of the engine are decoded as UTF-8, with invalid bytes treated
//! as an absent value (the same policy the tool applies to a null pointer).

use vstd::prelude::*;
use vstd::string::StringExecFns;
use vstd::utf8::{
    decode_utf8, encode_scalar, encode_utf8, has_width_1_encoding, valid_utf8,
};

verus! {

use crate::error::Error;
use crate::error::WRAPPER_ERROR_CLASS;
use crate::error::WRAPPER_ERROR_CODE;

/// Whether a byte sequence holds a null byte anywhere.
pub open spec fn has_nul_byte(s: Seq<u8>) -> bool {
    exists|i: int| 0 <= i < s.len() && s[i] == 0u8
}

/// The message of the error raised for an embedded null byte.
pub open spec fn nul_error_text() -> Seq<char> {
    "string holds an embedded null byte"@
}

/// Scans a byte string for an embedded null byte.
pub fn contains_nul(bytes: &[u8]) -> (r: bool)
    ensures
        r == has_nul_byte(bytes@),
{
    let n = bytes.len();
    let mut i: usize = 0;
    while i < n
        invariant
            n == bytes@.len(),
            0 <= i <= n,
            forall|j: int| 0 <= j < i ==> bytes@[j] != 0u8,
        decreases n - i,
    {
        if bytes[i] == 0 {
            return true;
        }
        i = i + 1;
    }
    false
}

/// Turns a byte string into the null-terminated form the native engine takes:
/// the input bytes followed by one terminating null byte.
///
/// Fails, without touching the engine, when the input holds an embedded null
/// byte: such a string has no null-terminated representation.
pub fn to_c_bytes(bytes: &[u8]) -> (r: Result<Vec<u8>, Error>)
    ensures
        !has_nul_byte(bytes@) ==> (r matches Ok(c) && c@ == bytes@.push(0u8)),
        has_nul_byte(bytes@) ==> (r matches Err(e)
            && e.code == WRAPPER_ERROR_CODE
            && e.class == WRAPPER_ERROR_CLASS
            && e.message@ == nul_error_text()),
        (r is Ok) <==> !has_nul_byte(bytes@),
{
    if contains_nul(bytes) {
        return Err(Error::from_message(String::from_str(
            "string holds an embedded null byte",
        )));
    }
    let n = bytes.len();
    let mut out: Vec<u8> = Vec::new();
    let mut i: usize = 0;
    while i < n
        invariant
            n == bytes@.len(),
            0 <= i <= n,
            out@ == bytes@.subrange(0, i as int),
        decreases n - i,
    {
        out.push(bytes[i]);
        proof {
            assert(out@ =~= bytes@.subrange(0, i as int + 1));
        }
        i = i + 1;
    }
    proof {
        assert(out@ =~= bytes@);
    }
    out.push(0u8);
    Ok(out)
}

/// Prepares a filesystem path, given as its platform bytes, for the native
/// open call. On byte-based platforms every path is representable; only an
/// embedded null byte is refused.
pub fn path_to_cstring(path: &[u8]) -> (r: Result<Vec<u8>, Error>)
    ensures
        !has_nul_byte(path@) ==> (r matches Ok(c) && c@ == path@.push(0u8)),
        has_nul_byte(path@) ==> (r matches Err(e)
            && e.code == WRAPPER_ERROR_CODE
            && e.class == WRAPPER_ERROR_CLASS
            && e.message@ == nul_error_text()),
        (r is Ok) <==> !has_nul_byte(path@),
{
    to_c_bytes(path)
}

/// Prepares a reference name for the native resolution call: the name's UTF-8
/// bytes followed by one terminating null byte. Fails, before any native
/// call, when the name holds an embedded null character.
pub fn str_to_c_bytes(name: &str) -> (r: Result<Vec<u8>, Error>)
    ensures
        !has_nul_byte(encode_utf8(name@)) ==> (r matches Ok(c)
            && c@ == encode_utf8(name@).push(0u8)),
        has_nul_byte(encode_utf8(name@)) ==> (r matches Err(e)
            && e.code == WRAPPER_ERROR_CODE
            && e.class == WRAPPER_ERROR_CLASS
            && e.message@ == nul_error_text()),
        (r is Ok) <==> !has_nul_byte(encode_utf8(name@)),
{
    let bytes = name.as_bytes();
    to_c_bytes(bytes)
}

/// Relies on `core::str::from_utf8` of std: it returns `Ok` exactly when the
/// bytes are valid UTF-8, and the resulting string decodes those bytes.
#[verifier::external_body]
fn string_from_utf8(bytes: &[u8]) -> (r: Option<String>)
    ensures
        (r is Some) <==> valid_utf8(bytes@),
        r matches Some(s) ==> s@ == decode_utf8(bytes@),
{
    match core::str::from_utf8(bytes) {
        Ok(s) => Some(s.to_string()),
        Err(_) => None,
    }
}

/// What a byte string copied out of the engine reads as: its UTF-8 decoding,
/// or nothing when the engine reported a null pointer (`bytes` is `None`) or
/// the bytes are not valid UTF-8. This is the wrapper's documented policy for
/// commit messages and signature fields: a null pointer and undecodable bytes
/// are both treated as an absent value, never as an error.
pub open spec fn decoded_text(bytes: Option<Seq<u8>>) -> Option<Seq<char>> {
    match bytes {
        None => None,
        Some(b) => if valid_utf8(b) {
            Some(decode_utf8(b))
        } else {
            None
        },
    }
}

/// A present, decodable, non-empty field reads as non-empty text: when the
/// engine hands back non-empty valid UTF-8 bytes — an author name or email
/// the underlying commit really has — the decoded value is there and is not
/// the empty string.
pub proof fn lemma_nonempty_field_reads_nonempty(bytes: Seq<u8>)
    requires
        valid_utf8(bytes),
        bytes.len() > 0,
    ensures
        decoded_text(Some(bytes)) matches Some(t) && t.len() > 0,
{
}

/// Decodes a byte string copied out of the engine, per [`decoded_text`].
pub fn decode_text(bytes: &Option<Vec<u8>>) -> (r: Option<String>)
    ensures
        (r is Some) <==> (decoded_text(view_opt_bytes(bytes)) is Some),
        r matches Some(s) ==> decoded_text(view_opt_bytes(bytes)) == Some(s@),
{
    match bytes {
        None => None,
        Some(b) => string_from_utf8(b.as_slice()),
    }
}

/// The view of an optional byte string.
pub open spec fn view_opt_bytes(bytes: &Option<Vec<u8>>) -> Option<Seq<u8>> {
    match bytes {
        None => None,
        Some(b) => Some(b@),
    }
}

/// Whether a character sequence holds the null character anywhere.
pub open spec fn has_nul_char(chars: Seq<char>) -> bool {
    exists|i: int| 0 <= i < chars.len() && chars[i] == '\0'
}

proof fn lemma_has_nul_byte_concat(a: Seq<u8>, b: Seq<u8>)
    ensures
        has_nul_byte(a + b) <==> (has_nul_byte(a) || has_nul_byte(b)),
{
    if has_nul_byte(a) {
        let i = choose|i: int| 0 <= i < a.len() && a[i] == 0u8;
        assert((a + b)[i] == 0u8);
    }
    if has_nul_byte(b) {
        let i = choose|i: int| 0 <= i < b.len() && b[i] == 0u8;
        assert((a + b)[a.len() + i] == 0u8);
    }
    if has_nul_byte(a + b) {
        let i = choose|i: int| 0 <= i < (a + b).len() && (a + b)[i] == 0u8;
        if i < a.len() {
            assert(a[i] == 0u8);
        } else {
            assert(b[i - a.len()] == 0u8);
        }
    }
}

proof fn lemma_encode_scalar_nul(c: char)
    ensures
        has_nul_byte(encode_scalar(c as u32)) <==> c == '\0',
{
    broadcast use vstd::utf8::char_is_scalar;

    let v = c as u32;
    let bytes = encode_scalar(v);
    if has_width_1_encoding(v) {
        assert(bytes[0] == (v & 0x7F) as u8);
        assert(v <= 0x7F ==> (((v & 0x7F) as u8 == 0) <==> v == 0)) by (bit_vector);
        if v == 0 {
            vstd::utf8::char_u32_cast(c, v);
            assert(c == '\0');
            assert(bytes[0] == 0u8);
        } else {
            assert(c != '\0') by {
                assert(('\0' as u32) == 0);
            }
            assert(forall|i: int| 0 <= i < bytes.len() ==> bytes[i] != 0u8);
        }
    } else {
        assert(c != '\0') by {
            assert(('\0' as u32) == 0);
        }
        let l2 = (((v >> 6) & 0x1F)) as u8;
        let l3 = (((v >> 12) & 0x0F)) as u8;
        let l4 = (((v >> 18) & 0x7)) as u8;
        let c1 = ((v & 0x3F)) as u8;
        let c2 = (((v >> 6) & 0x3F)) as u8;
        let c3 = (((v >> 12) & 0x3F)) as u8;
        assert(0xC0u8 | l2 != 0u8) by (bit_vector);
        assert(0xE0u8 | l3 != 0u8) by (bit_vector);
        assert(0xF0u8 | l4 != 0u8) by (bit_vector);
        assert(0x80u8 | c1 != 0u8) by (bit_vector);
        assert(0x80u8 | c2 != 0u8) by (bit_vector);
        assert(0x80u8 | c3 != 0u8) by (bit_vector);
        assert(forall|i: int| 0 <= i < bytes.len() ==> bytes[i] != 0u8);
    }
}

/// The null character is the one character whose UTF-8 encoding holds a null
/// byte: a text holds an embedded null character exactly when its UTF-8
/// bytes hold an embedded null byte. With the contract of
/// [`str_to_c_bytes`], that function fails precisely on the texts that hold
/// an embedded null character, before any native call is made.
pub proof fn lemma_nul_byte_iff_nul_char(chars: Seq<char>)
    ensures
        has_nul_byte(encode_utf8(chars)) <==> has_nul_char(chars),
    decreases chars.len(),
{
    if chars.len() == 0 {
    } else {
        lemma_encode_scalar_nul(chars[0]);
        lemma_nul_byte_iff_nul_char(chars.drop_first());
        lemma_has_nul_byte_concat(encode_scalar(chars[0] as u32), encode_utf8(chars.drop_first()));
        assert(has_nul_char(chars) <==> (chars[0] == '\0' || has_nul_char(chars.drop_first())))
            by {
            if chars[0] == '\0' {
                assert(chars[0] == '\0' && 0 <= 0 < chars.len());
            }
            if has_nul_char(chars.drop_first()) {
                let i = choose|i: int|
                    0 <= i < chars.drop_first().len() && chars.drop_first()[i] == '\0';
                assert(chars[i + 1] == '\0');
            }
            if has_nul_char(chars) {
                let i = choose|i: int| 0 <= i < chars.len() && chars[i] == '\0';
                if i > 0 {
                    assert(chars.drop_first()[i - 1] == '\0');
                }
            }
        }
    }
}

} // verus!

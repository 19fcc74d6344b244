//! Library for building a minimal "open a window and clear the screen"
//! sample on top of the Win32, WGL and WebGL interfaces.
//!
//! This crate holds the parts of that job that are plain computation:
//! UTF-8 and UTF-16 transcoding, null-terminated byte handling, Vulkan
//! version packing, and the small decisions that sit between calls into
//! the operating system.  Everything here is verified; the calls into
//! the operating system themselves live outside this crate.

use vstd::prelude::*;

use vstd::utf8::{decode_utf8, valid_utf8};

pub mod util;
pub mod vk;
pub mod web;
pub mod win32;

verus! {

/// A name for what `String::from_utf8_lossy` returns on a byte sequence:
/// the bytes decoded as UTF-8, with each invalid sequence replaced.
pub uninterp spec fn lossy_utf8(bytes: Seq<u8>) -> Seq<char>;

/// Relies on `String::from_utf8`: it returns `Ok` exactly on valid UTF-8
/// input, the `Ok` string holds the decoded characters, and the `Err`
/// carries the input bytes back (recovered here with
/// `FromUtf8Error::into_bytes`).
#[verifier::external_body]
pub(crate) fn string_from_utf8(bytes: Vec<u8>) -> (r: Result<String, Vec<u8>>)
    ensures
        r is Ok <==> valid_utf8(bytes@),
        r matches Ok(s) ==> s@ == decode_utf8(bytes@),
        r matches Err(b) ==> b@ == bytes@,
{
    String::from_utf8(bytes).map_err(|e| e.into_bytes())
}

/// Relies on `String::from_utf8_lossy`: the result is a function of the
/// bytes alone, and on valid UTF-8 input it is exactly the decoded string.
#[verifier::external_body]
pub(crate) fn string_from_utf8_lossy(bytes: &[u8]) -> (r: String)
    ensures
        r@ == lossy_utf8(bytes@),
        valid_utf8(bytes@) ==> r@ == decode_utf8(bytes@),
{
    String::from_utf8_lossy(bytes).into_owned()
}

#[verifier::external_type_specification]
#[verifier::external_body]
pub struct ExUtf8Error(core::str::Utf8Error);

/// Relies on `core::str::from_utf8`: it returns `Ok` exactly on valid
/// UTF-8 input, and the `Ok` slice views as the decoded characters.
#[verifier::external_body]
fn str_from_utf8(bytes: &[u8]) -> (r: Result<&str, core::str::Utf8Error>)
    ensures
        r is Ok <==> valid_utf8(bytes@),
        r matches Ok(s) ==> s@ == decode_utf8(bytes@),
{
    core::str::from_utf8(bytes)
}

/// Converts a `Vec<u8>` into a `String` using the minimum amount of
/// re-allocation: valid UTF-8 input is taken over as it stands, and only
/// invalid input pays for a lossy re-encoding.
pub fn min_alloc_lossy_into_string(bytes: Vec<u8>) -> (r: String)
    ensures
        valid_utf8(bytes@) ==> r@ == decode_utf8(bytes@),
        !valid_utf8(bytes@) ==> r@ == lossy_utf8(bytes@),
{
    match string_from_utf8(bytes) {
        Ok(s) => s,
        Err(b) => string_from_utf8_lossy(b.as_slice()),
    }
}

/// The index of the first `0` in `bytes` at or after `i`, or the length
/// of `bytes` if no `0` follows.
pub open spec fn first_nul_at(bytes: Seq<u8>, i: int) -> int
    recommends
        0 <= i <= bytes.len(),
    decreases bytes.len() - i,
{
    if i < 0 || i >= bytes.len() {
        bytes.len() as int
    } else if bytes[i] == 0 {
        i
    } else {
        first_nul_at(bytes, i + 1)
    }
}

/// The bytes of `bytes` before its first `0`, or all of `bytes` if it
/// holds no `0`.
pub open spec fn nul_terminated_prefix(bytes: Seq<u8>) -> Seq<u8> {
    bytes.take(first_nul_at(bytes, 0))
}

/// Makes a `&str` from all bytes before the first `0` within the byte slice.
///
/// If the slice has no `0` then the entire slice is used.  Succeeds
/// exactly when those bytes are valid UTF-8.
pub fn str_from_null_terminated_byte_slice(bytes: &[u8]) -> (r: Result<
    &str,
    core::str::Utf8Error,
>)
    ensures
        r is Ok <==> valid_utf8(nul_terminated_prefix(bytes@)),
        r matches Ok(s) ==> s@ == decode_utf8(nul_terminated_prefix(bytes@)),
{
    let n = bytes.len();
    let mut i: usize = 0;
    while i < n && *vstd::slice::slice_index_get(bytes, i) != 0
        invariant
            0 <= i <= n,
            n == bytes@.len(),
            first_nul_at(bytes@, 0) == first_nul_at(bytes@, i as int),
        decreases n - i,
    {
        i = i + 1;
    }
    assert(first_nul_at(bytes@, i as int) == i);
    let prefix = vstd::slice::slice_subrange(bytes, 0, i);
    assert(prefix@ == nul_terminated_prefix(bytes@));
    str_from_utf8(prefix)
}

} // verus!

//! Utility functions for the crate: UTF-8 decoding one code point at a
//! time, and re-encoding strings as UTF-16.

use vstd::prelude::*;

use vstd::string::StringExecFns;
use vstd::utf8::{
    char_is_scalar, decode_first_codepoint, encode_scalar, encode_utf8, encode_utf8_first_scalar,
    is_scalar, length_of_first_codepoint, valid_first_scalar,
    valid_leading_and_continuation_bytes_first_codepoint,
};

verus! {

/// The Unicode replacement character, as a code point value.
pub const REPLACEMENT_CODE_POINT: u32 = 0xFFFD;

/// One step of the permissive UTF-8 decoder: the code point read from the
/// head of `bytes` and the number of bytes it took, or `None` on empty
/// input.
///
/// A well-formed lead byte with enough bytes after it is decoded from its
/// data bits; the continuation bytes are not checked.  Any other head
/// byte gives the replacement code point and one byte is consumed.
pub open spec fn code_point_take(bytes: Seq<u8>) -> Option<(u32, int)> {
    if bytes.len() == 0 {
        None
    } else {
        let a = bytes[0];
        if a <= 0x7f {
            Some(((a as u32), 1))
        } else if 0xc0 <= a && a <= 0xdf && bytes.len() >= 2 {
            Some(((((a & 0x1f) as u32) << 6) | ((bytes[1] & 0x3f) as u32), 2))
        } else if 0xe0 <= a && a <= 0xef && bytes.len() >= 3 {
            Some(
                (
                    (((a & 0xf) as u32) << 12) | (((bytes[1] & 0x3f) as u32) << 6) | ((bytes[2]
                        & 0x3f) as u32),
                    3,
                ),
            )
        } else if 0xf0 <= a && a <= 0xf7 && bytes.len() >= 4 {
            Some(
                (
                    (((a & 0x7) as u32) << 18) | (((bytes[1] & 0x3f) as u32) << 12) | (((bytes[2]
                        & 0x3f) as u32) << 6) | ((bytes[3] & 0x3f) as u32),
                    4,
                ),
            )
        } else {
            Some((REPLACEMENT_CODE_POINT, 1))
        }
    }
}

/// Removes a code point from the head of a utf-8 byte slice.
///
/// If the input isn't utf-8 bytes it will attempt to use the unicode
/// replacement character as appropriate.
pub fn break_off_code_point<'a>(utf8: &'a [u8]) -> (r: Option<(u32, &'a [u8])>)
    ensures
        r is Some <==> utf8@.len() > 0,
        r matches Some((value, rest)) ==> {
            let head = code_point_take(utf8@)->Some_0;
            &&& value == head.0
            &&& rest@ == utf8@.skip(head.1)
            &&& rest@.len() < utf8@.len()
        },
{
    let n = utf8.len();
    if n == 0 {
        return None;
    }
    let a = *vstd::slice::slice_index_get(utf8, 0);
    if a <= 0x7f {
        // one byte
        Some((a as u32, vstd::slice::slice_subrange(utf8, 1, n)))
    } else if 0xc0 <= a && a <= 0xdf && n >= 2 {
        // two bytes
        let b = *vstd::slice::slice_index_get(utf8, 1);
        let out = (((a & 0x1f) as u32) << 6) | ((b & 0x3f) as u32);
        Some((out, vstd::slice::slice_subrange(utf8, 2, n)))
    } else if 0xe0 <= a && a <= 0xef && n >= 3 {
        // three bytes
        let b = *vstd::slice::slice_index_get(utf8, 1);
        let c = *vstd::slice::slice_index_get(utf8, 2);
        let out = (((a & 0xf) as u32) << 12) | (((b & 0x3f) as u32) << 6) | ((c & 0x3f) as u32);
        Some((out, vstd::slice::slice_subrange(utf8, 3, n)))
    } else if 0xf0 <= a && a <= 0xf7 && n >= 4 {
        // four bytes
        let b = *vstd::slice::slice_index_get(utf8, 1);
        let c = *vstd::slice::slice_index_get(utf8, 2);
        let d = *vstd::slice::slice_index_get(utf8, 3);
        let out = (((a & 0x7) as u32) << 18) | (((b & 0x3f) as u32) << 12) | (((c
            & 0x3f) as u32) << 6) | ((d & 0x3f) as u32);
        Some((out, vstd::slice::slice_subrange(utf8, 4, n)))
    } else {
        // An unexpected head byte: pull off one byte and give the unicode
        // replacement code point.
        Some((REPLACEMENT_CODE_POINT, vstd::slice::slice_subrange(utf8, 1, n)))
    }
}

/// The UTF-16 code units that encode one code point: one unit for the
/// basic plane, a surrogate pair above it.
pub open spec fn utf16_units(u: u32) -> Seq<u16> {
    if u <= 0xFFFF {
        seq![u as u16]
    } else {
        let code = (u - 0x10000) as u32;
        seq![0xD800u16 | ((code >> 10) as u16), 0xDC00u16 | ((code & 0x3FF) as u16)]
    }
}

/// The UTF-16 encoding of a character sequence.
pub open spec fn utf16_encode(chars: Seq<char>) -> Seq<u16>
    decreases chars.len(),
{
    if chars.len() == 0 {
        Seq::empty()
    } else {
        utf16_units(chars[0] as u32) + utf16_encode(chars.drop_first())
    }
}

/// A scalar's UTF-8 encoding takes one to four bytes, and exactly four
/// above the basic plane.
proof fn lemma_encode_scalar_len(s: u32)
    requires
        is_scalar(s),
    ensures
        1 <= encode_scalar(s).len() <= 4,
        s > 0xFFFF ==> encode_scalar(s).len() == 4,
{
}

/// Only the empty character sequence has an empty UTF-8 encoding.
proof fn lemma_encode_utf8_head_len(chars: Seq<char>)
    requires
        chars.len() > 0,
    ensures
        encode_utf8(chars).len() > 0,
{
    char_is_scalar(chars[0]);
    lemma_encode_scalar_len(chars[0] as u32);
}

/// A string's UTF-16 encoding never has more units than its UTF-8
/// encoding has bytes.
proof fn lemma_utf16_at_most_utf8(chars: Seq<char>)
    ensures
        utf16_encode(chars).len() <= encode_utf8(chars).len(),
    decreases chars.len(),
{
    if chars.len() > 0 {
        char_is_scalar(chars[0]);
        lemma_encode_scalar_len(chars[0] as u32);
        lemma_utf16_at_most_utf8(chars.drop_first());
    }
}

/// On bytes that begin with a well-formed scalar encoding, the permissive
/// decoding step agrees with the strict one.
proof fn lemma_code_point_take_valid(bytes: Seq<u8>)
    requires
        valid_first_scalar(bytes),
    ensures
        code_point_take(bytes) == Some(
            (decode_first_codepoint(bytes), length_of_first_codepoint(bytes)),
        ),
{
    let a = bytes[0];
    assert(valid_leading_and_continuation_bytes_first_codepoint(bytes));
    if a <= 0x7f {
        assert((a & 0x7f) == a) by (bit_vector)
            requires
                a <= 0x7f,
        ;
    }
}

/// One decoding step on the UTF-8 encoding of a non-empty character
/// sequence: it takes off exactly the first character.
proof fn lemma_take_head_of_encoded(chars: Seq<char>)
    requires
        chars.len() > 0,
    ensures
        encode_utf8(chars).len() > 0,
        code_point_take(encode_utf8(chars)) == Some(
            (chars[0] as u32, encode_scalar(chars[0] as u32).len() as int),
        ),
        encode_utf8(chars).skip(encode_scalar(chars[0] as u32).len() as int) == encode_utf8(
            chars.drop_first(),
        ),
{
    let bytes = encode_utf8(chars);
    lemma_encode_utf8_head_len(chars);
    encode_utf8_first_scalar(chars);
    lemma_code_point_take_valid(bytes);
    assert(bytes =~= encode_scalar(chars[0] as u32) + encode_utf8(chars.drop_first()));
    assert(bytes.skip(encode_scalar(chars[0] as u32).len() as int) =~= encode_utf8(
        chars.drop_first(),
    ));
}

/// Counts the number of code units that the input would require in UTF-16.
///
/// This is **not** the number of code *points*, this is the number of code
/// *units*. Just like with utf-8, utf-16 is variable width. Not all code points
/// are just one `u16`, some are two. This counts the number of `u16` values
/// you'd have if you re-encoded the input as utf-16.
pub fn count_utf16_code_units(s: &str) -> (r: usize)
    ensures
        r == utf16_encode(s@).len(),
{
    let mut bytes: &[u8] = s.as_bytes();
    let total: usize = bytes.len();
    let ghost all: Seq<char> = s@;
    let ghost mut rem: Seq<char> = s@;
    proof {
        lemma_utf16_at_most_utf8(all);
    }
    let mut len: usize = 0;
    loop
        invariant
            all == s@,
            bytes@ == encode_utf8(rem),
            len + utf16_encode(rem).len() == utf16_encode(all).len(),
            utf16_encode(all).len() <= encode_utf8(all).len(),
            encode_utf8(all).len() == total,
        decreases bytes@.len(),
    {
        match break_off_code_point(bytes) {
            Some((u, rest)) => {
                proof {
                    lemma_encode_utf8_head_len(rem);
                    lemma_take_head_of_encoded(rem);
                    assert(utf16_encode(rem) == utf16_units(rem[0] as u32) + utf16_encode(
                        rem.drop_first(),
                    ));
                    char_is_scalar(rem[0]);
                }
                if u <= 0xFFFF {
                    len = len + 1;
                } else {
                    len = len + 2;
                }
                bytes = rest;
                proof {
                    rem = rem.drop_first();
                }
            },
            None => {
                proof {
                    if rem.len() > 0 {
                        lemma_encode_utf8_head_len(rem);
                    }
                }
                return len;
            },
        }
    }
}

/// Re-encodes a string's characters as UTF-16.
pub fn utf16(s: &str) -> (r: Vec<u16>)
    ensures
        r@ == utf16_encode(s@),
{
    let mut bytes: &[u8] = s.as_bytes();
    let ghost all: Seq<char> = s@;
    let ghost mut rem: Seq<char> = s@;
    let mut out: Vec<u16> = Vec::new();
    loop
        invariant
            all == s@,
            bytes@ == encode_utf8(rem),
            out@ + utf16_encode(rem) == utf16_encode(all),
        decreases bytes@.len(),
    {
        match break_off_code_point(bytes) {
            Some((u, rest)) => {
                proof {
                    lemma_encode_utf8_head_len(rem);
                    lemma_take_head_of_encoded(rem);
                    assert(utf16_encode(rem) == utf16_units(rem[0] as u32) + utf16_encode(
                        rem.drop_first(),
                    ));
                    char_is_scalar(rem[0]);
                }
                let ghost out_before = out@;
                if u <= 0xFFFF {
                    out.push(u as u16);
                } else {
                    let code = u - 0x10000;
                    out.push(0xD800 | ((code >> 10) as u16));
                    out.push(0xDC00 | ((code & 0x3FF) as u16));
                }
                proof {
                    assert(out@ =~= out_before + utf16_units(rem[0] as u32));
                }
                bytes = rest;
                proof {
                    rem = rem.drop_first();
                    assert(out@ + utf16_encode(rem) =~= utf16_encode(all));
                }
            },
            None => {
                proof {
                    if rem.len() > 0 {
                        lemma_encode_utf8_head_len(rem);
                    }
                    assert(out@ =~= utf16_encode(all));
                }
                return out;
            },
        }
    }
}

/// Encoding one more character appends that character's bytes.
pub proof fn lemma_encode_utf8_snoc(chars: Seq<char>, c: char)
    ensures
        encode_utf8(chars.push(c)) == encode_utf8(chars) + encode_scalar(c as u32),
    decreases chars.len(),
{
    if chars.len() == 0 {
        reveal_with_fuel(encode_utf8, 2);
        assert(chars.push(c)[0] == c);
        assert(chars.push(c).drop_first() =~= Seq::<char>::empty());
        assert(encode_utf8(chars.push(c)) =~= encode_scalar(c as u32));
        assert(encode_utf8(chars) + encode_scalar(c as u32) =~= encode_scalar(c as u32));
    } else {
        lemma_encode_utf8_snoc(chars.drop_first(), c);
        assert(chars.push(c).drop_first() =~= chars.drop_first().push(c));
        assert(encode_utf8(chars.push(c)) =~= encode_utf8(chars) + encode_scalar(c as u32));
    }
}

/// Appends the UTF-8 encoding of one Unicode scalar to a byte buffer.
pub fn push_scalar_utf8(buf: &mut Vec<u8>, scalar: u32)
    requires
        is_scalar(scalar),
    ensures
        final(buf)@ == old(buf)@ + encode_scalar(scalar),
{
    if scalar <= 0x7F {
        buf.push((scalar & 0x7F) as u8);
    } else if scalar <= 0x7FF {
        buf.push(0xC0 | ((scalar >> 6) & 0x1F) as u8);
        buf.push(0x80 | (scalar & 0x3F) as u8);
    } else if scalar <= 0xFFFF {
        buf.push(0xE0 | ((scalar >> 12) & 0x0F) as u8);
        buf.push(0x80 | ((scalar >> 6) & 0x3F) as u8);
        buf.push(0x80 | (scalar & 0x3F) as u8);
    } else {
        buf.push(0xF0 | ((scalar >> 18) & 0x7) as u8);
        buf.push(0x80 | ((scalar >> 12) & 0x3F) as u8);
        buf.push(0x80 | ((scalar >> 6) & 0x3F) as u8);
        buf.push(0x80 | (scalar & 0x3F) as u8);
    }
    proof {
        assert(buf@ =~= old(buf)@ + encode_scalar(scalar));
    }
}

/// The character that shows one decimal digit.
pub open spec fn digit_char(d: nat) -> char {
    if d == 0 {
        '0'
    } else if d == 1 {
        '1'
    } else if d == 2 {
        '2'
    } else if d == 3 {
        '3'
    } else if d == 4 {
        '4'
    } else if d == 5 {
        '5'
    } else if d == 6 {
        '6'
    } else if d == 7 {
        '7'
    } else if d == 8 {
        '8'
    } else {
        '9'
    }
}

/// The decimal digit characters of a number, most significant first.
pub open spec fn decimal_chars(n: nat) -> Seq<char>
    decreases n,
{
    if n < 10 {
        seq![digit_char(n)]
    } else {
        decimal_chars(n / 10).push(digit_char(n % 10))
    }
}

/// The one-character string slice that shows one decimal digit.
fn digit_str(d: u32) -> (r: &'static str)
    requires
        d < 10,
    ensures
        r@ == seq![digit_char(d as nat)],
{
    proof {
        reveal_strlit("0");
        reveal_strlit("1");
        reveal_strlit("2");
        reveal_strlit("3");
        reveal_strlit("4");
        reveal_strlit("5");
        reveal_strlit("6");
        reveal_strlit("7");
        reveal_strlit("8");
        reveal_strlit("9");
    }
    match d {
        0 => "0",
        1 => "1",
        2 => "2",
        3 => "3",
        4 => "4",
        5 => "5",
        6 => "6",
        7 => "7",
        8 => "8",
        _ => "9",
    }
}

/// Writes a number in decimal.
pub fn decimal_string(n: u32) -> (r: String)
    ensures
        r@ == decimal_chars(n as nat),
    decreases n,
{
    if n < 10 {
        digit_str(n).to_owned()
    } else {
        let mut s = decimal_string(n / 10);
        s.append(digit_str(n % 10));
        proof {
            assert(decimal_chars(n as nat) =~= decimal_chars((n / 10) as nat) + seq![
                digit_char((n % 10) as nat),
            ]);
        }
        s
    }
}

/// As per [`utf16`], but places a null-terminator on the end.
pub fn utf16_null(s: &str) -> (r: Vec<u16>)
    ensures
        r@ == utf16_encode(s@).push(0u16),
{
    let mut out = utf16(s);
    out.push(0);
    out
}

} // verus!

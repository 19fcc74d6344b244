//! Module for stuff that's specific to the Win32 API on Windows: the
//! plain-data types that cross into the operating system, and the
//! decisions that the calling code makes around those calls.

#![allow(non_snake_case)]
#![allow(non_camel_case_types)]

use vstd::prelude::*;

use crate::util::{
    lemma_encode_utf8_snoc, push_scalar_utf8, utf16_encode, REPLACEMENT_CODE_POINT,
};
use vstd::string::{StrSliceExecFns, StringExecFns};
use vstd::utf8::{decode_utf8, encode_utf8, encode_utf8_decode_utf8, encode_utf8_valid_utf8};

verus! {

pub type ATOM = WORD;

pub type BOOL = c_int;

pub type BYTE = u8;

pub type c_int = i32;

pub type c_long = i32;

pub type c_uint = u32;

pub type c_ulong = u32;

pub type c_ushort = u16;

pub type DWORD = c_ulong;

pub type LONG = c_long;

pub type UINT = c_uint;

pub type WCHAR = wchar_t;

pub type wchar_t = u16;

pub type WORD = c_ushort;

/// Newtype wrapper for a Win32 error code.
///
/// If bit 29 is set, it's an application error.
#[derive(Clone, Copy, Debug, PartialEq, Eq, Structural, Hash)]
pub struct Win32Error(pub DWORD);

impl Win32Error {
    pub const APPLICATION_ERROR_BIT: DWORD = 1u32 << 29;

    /// True when the code carries the application error bit.
    pub fn is_application_error(self) -> (r: bool)
        ensures
            r == (self.0 & (1u32 << 29) > 0),
    {
        self.0 & Self::APPLICATION_ERROR_BIT > 0
    }

    /// The terse text for an error code, naming the number alone.
    pub fn code_text(self) -> (r: String)
        ensures
            r@ == "Win32Error("@ + crate::util::decimal_chars(self.0 as nat) + ")"@,
    {
        let mut s = "Win32Error(".to_owned();
        s.append(crate::util::decimal_string(self.0).as_str());
        s.append(")");
        proof {
            assert(s@ =~= "Win32Error("@ + crate::util::decimal_chars(self.0 as nat) + ")"@);
        }
        s
    }

    /// The text for an error code that carries the application error bit,
    /// which no system message describes: `Win32ApplicationError(` and the
    /// decimal code.
    pub fn application_error_text(self) -> (r: String)
        ensures
            r@ == "Win32ApplicationError("@ + crate::util::decimal_chars(self.0 as nat) + ")"@,
    {
        let mut s = "Win32ApplicationError(".to_owned();
        s.append(crate::util::decimal_string(self.0).as_str());
        s.append(")");
        proof {
            assert(s@ =~= "Win32ApplicationError("@ + crate::util::decimal_chars(
                self.0 as nat,
            ) + ")"@);
        }
        s
    }
}

#[derive(Clone, Copy, Debug, PartialEq, Eq, Structural, Hash)]
pub struct POINT {
    pub x: LONG,
    pub y: LONG,
}

impl Default for POINT {
    /// All fields zeroed.
    fn default() -> (r: Self)
        ensures
            r == (POINT { x: 0, y: 0 }),
    {
        POINT { x: 0, y: 0 }
    }
}

#[derive(Clone, Copy, Debug, PartialEq, Eq, Structural, PartialOrd, Ord, Hash)]
pub struct RECT {
    pub left: LONG,
    pub top: LONG,
    pub right: LONG,
    pub bottom: LONG,
}

impl Default for RECT {
    /// All fields zeroed.
    fn default() -> (r: Self)
        ensures
            r == (RECT { left: 0, top: 0, right: 0, bottom: 0 }),
    {
        RECT { left: 0, top: 0, right: 0, bottom: 0 }
    }
}

pub struct PIXELFORMATDESCRIPTOR {
    pub nSize: WORD,
    pub nVersion: WORD,
    pub dwFlags: DWORD,
    pub iPixelType: BYTE,
    pub cColorBits: BYTE,
    pub cRedBits: BYTE,
    pub cRedShift: BYTE,
    pub cGreenBits: BYTE,
    pub cGreenShift: BYTE,
    pub cBlueBits: BYTE,
    pub cBlueShift: BYTE,
    pub cAlphaBits: BYTE,
    pub cAlphaShift: BYTE,
    pub cAccumBits: BYTE,
    pub cAccumRedBits: BYTE,
    pub cAccumGreenBits: BYTE,
    pub cAccumBlueBits: BYTE,
    pub cAccumAlphaBits: BYTE,
    pub cDepthBits: BYTE,
    pub cStencilBits: BYTE,
    pub cAuxBuffers: BYTE,
    pub iLayerType: BYTE,
    pub bReserved: BYTE,
    pub dwLayerMask: DWORD,
    pub dwVisibleMask: DWORD,
    pub dwDamageMask: DWORD,
}

/// The size in bytes of the C layout of `PIXELFORMATDESCRIPTOR`, which
/// the operating system reads from the `nSize` field.
pub const PIXELFORMATDESCRIPTOR_SIZE: WORD = 40;

impl Default for PIXELFORMATDESCRIPTOR {
    /// Automatically fills out the correct `nSize` and `nVersion` values.
    ///
    /// Other fields are all zeroed.
    fn default() -> (r: Self)
        ensures
            r.nSize == PIXELFORMATDESCRIPTOR_SIZE,
            r.nVersion == 1,
            r.dwFlags == 0,
            r.iPixelType == 0,
            r.cColorBits == 0,
            r.cRedBits == 0,
            r.cRedShift == 0,
            r.cGreenBits == 0,
            r.cGreenShift == 0,
            r.cBlueBits == 0,
            r.cBlueShift == 0,
            r.cAlphaBits == 0,
            r.cAlphaShift == 0,
            r.cAccumBits == 0,
            r.cAccumRedBits == 0,
            r.cAccumGreenBits == 0,
            r.cAccumBlueBits == 0,
            r.cAccumAlphaBits == 0,
            r.cDepthBits == 0,
            r.cStencilBits == 0,
            r.cAuxBuffers == 0,
            r.iLayerType == 0,
            r.bReserved == 0,
            r.dwLayerMask == 0,
            r.dwVisibleMask == 0,
            r.dwDamageMask == 0,
    {
        PIXELFORMATDESCRIPTOR {
            nSize: PIXELFORMATDESCRIPTOR_SIZE,
            nVersion: 1,
            dwFlags: 0,
            iPixelType: 0,
            cColorBits: 0,
            cRedBits: 0,
            cRedShift: 0,
            cGreenBits: 0,
            cGreenShift: 0,
            cBlueBits: 0,
            cBlueShift: 0,
            cAlphaBits: 0,
            cAlphaShift: 0,
            cAccumBits: 0,
            cAccumRedBits: 0,
            cAccumGreenBits: 0,
            cAccumBlueBits: 0,
            cAccumAlphaBits: 0,
            cDepthBits: 0,
            cStencilBits: 0,
            cAuxBuffers: 0,
            iLayerType: 0,
            bReserved: 0,
            dwLayerMask: 0,
            dwVisibleMask: 0,
            dwDamageMask: 0,
        }
    }
}

/// The predefined cursor styles.
#[derive(Clone, Copy, PartialEq, Eq, Structural)]
pub enum IDCursor {
    /// Standard arrow and small hourglass
    AppStarting,
    /// Standard arrow
    Arrow,
    /// Crosshair
    Cross,
    /// Hand
    Hand,
    /// Arrow and question mark
    Help,
    /// I-beam
    IBeam,
    /// Slashed circle
    No,
    /// Four-pointed arrow pointing north, south, east, and west
    SizeAll,
    /// Double-pointed arrow pointing northeast and southwest
    SizeNeSw,
    /// Double-pointed arrow pointing north and south
    SizeNS,
    /// Double-pointed arrow pointing northwest and southeast
    SizeNwSe,
    /// Double-pointed arrow pointing west and east
    SizeWE,
    /// Vertical arrow
    UpArrow,
    /// Hourglass
    Wait,
}

/// The resource number that names each predefined cursor.
pub open spec fn spec_cursor_id(c: IDCursor) -> WORD {
    match c {
        IDCursor::AppStarting => 32650,
        IDCursor::Arrow => 32512,
        IDCursor::Cross => 32515,
        IDCursor::Hand => 32649,
        IDCursor::Help => 32651,
        IDCursor::IBeam => 32513,
        IDCursor::No => 32648,
        IDCursor::SizeAll => 32646,
        IDCursor::SizeNeSw => 32643,
        IDCursor::SizeNS => 32645,
        IDCursor::SizeNwSe => 32642,
        IDCursor::SizeWE => 32644,
        IDCursor::UpArrow => 32516,
        IDCursor::Wait => 32514,
    }
}

impl IDCursor {
    /// The resource number handed to the cursor-loading call.
    pub fn id(self) -> (r: WORD)
        ensures
            r == spec_cursor_id(self),
    {
        match self {
            IDCursor::AppStarting => 32650,
            IDCursor::Arrow => 32512,
            IDCursor::Cross => 32515,
            IDCursor::Hand => 32649,
            IDCursor::Help => 32651,
            IDCursor::IBeam => 32513,
            IDCursor::No => 32648,
            IDCursor::SizeAll => 32646,
            IDCursor::SizeNeSw => 32643,
            IDCursor::SizeNS => 32645,
            IDCursor::SizeNwSe => 32642,
            IDCursor::SizeWE => 32644,
            IDCursor::UpArrow => 32516,
            IDCursor::Wait => 32514,
        }
    }
}

/// The system colors a rectangle can be filled with.
#[derive(Clone, Copy, PartialEq, Eq, Structural)]
pub enum SysColor {
    _3dDarkShadow,
    _3dLight,
    ActiveBorder,
    ActiveCaption,
    AppWorkspace,
    /// Button face, also "3D face" color.
    ButtonFace,
    /// Button highlight, also "3D highlight" color.
    ButtonHighlight,
    /// Button shadow, also "3D shadow" color.
    ButtonShadow,
    ButtonText,
    CaptionText,
    /// Desktop background color
    Desktop,
    GradientActiveCaption,
    GradientInactiveCaption,
    GrayText,
    Highlight,
    HighlightText,
    HotLight,
    InactiveBorder,
    InactiveCaption,
    InactiveCaptionText,
    InfoBackground,
    InfoText,
    Menu,
    MenuHighlight,
    MenuBar,
    MenuText,
    ScrollBar,
    Window,
    WindowFrame,
    WindowText,
}

/// The number that names each system color.
pub open spec fn spec_sys_color_id(c: SysColor) -> u32 {
    match c {
        SysColor::_3dDarkShadow => 21,
        SysColor::_3dLight => 22,
        SysColor::ActiveBorder => 10,
        SysColor::ActiveCaption => 2,
        SysColor::AppWorkspace => 12,
        SysColor::ButtonFace => 15,
        SysColor::ButtonHighlight => 20,
        SysColor::ButtonShadow => 16,
        SysColor::ButtonText => 18,
        SysColor::CaptionText => 9,
        SysColor::Desktop => 1,
        SysColor::GradientActiveCaption => 27,
        SysColor::GradientInactiveCaption => 28,
        SysColor::GrayText => 17,
        SysColor::Highlight => 13,
        SysColor::HighlightText => 14,
        SysColor::HotLight => 26,
        SysColor::InactiveBorder => 11,
        SysColor::InactiveCaption => 3,
        SysColor::InactiveCaptionText => 19,
        SysColor::InfoBackground => 24,
        SysColor::InfoText => 23,
        SysColor::Menu => 4,
        SysColor::MenuHighlight => 29,
        SysColor::MenuBar => 30,
        SysColor::MenuText => 7,
        SysColor::ScrollBar => 0,
        SysColor::Window => 5,
        SysColor::WindowFrame => 6,
        SysColor::WindowText => 8,
    }
}

impl SysColor {
    /// The number that names this system color.
    pub fn id(self) -> (r: u32)
        ensures
            r == spec_sys_color_id(self),
    {
        match self {
            SysColor::_3dDarkShadow => 21,
            SysColor::_3dLight => 22,
            SysColor::ActiveBorder => 10,
            SysColor::ActiveCaption => 2,
            SysColor::AppWorkspace => 12,
            SysColor::ButtonFace => 15,
            SysColor::ButtonHighlight => 20,
            SysColor::ButtonShadow => 16,
            SysColor::ButtonText => 18,
            SysColor::CaptionText => 9,
            SysColor::Desktop => 1,
            SysColor::GradientActiveCaption => 27,
            SysColor::GradientInactiveCaption => 28,
            SysColor::GrayText => 17,
            SysColor::Highlight => 13,
            SysColor::HighlightText => 14,
            SysColor::HotLight => 26,
            SysColor::InactiveBorder => 11,
            SysColor::InactiveCaption => 3,
            SysColor::InactiveCaptionText => 19,
            SysColor::InfoBackground => 24,
            SysColor::InfoText => 23,
            SysColor::Menu => 4,
            SysColor::MenuHighlight => 29,
            SysColor::MenuBar => 30,
            SysColor::MenuText => 7,
            SysColor::ScrollBar => 0,
            SysColor::Window => 5,
            SysColor::WindowFrame => 6,
            SysColor::WindowText => 8,
        }
    }

    /// The value handed to the rectangle-filling call as its brush: one
    /// more than the color's own number.
    pub fn brush_value(self) -> (r: u32)
        ensures
            r == spec_sys_color_id(self) + 1,
    {
        self.id() + 1
    }
}

/// Turns a Rust string slice into a null-terminated utf-16 vector.
pub fn wide_null(s: &str) -> (r: Vec<u16>)
    ensures
        r@ == utf16_encode(s@).push(0u16),
{
    let mut out = crate::util::utf16(s);
    out.push(0);
    out
}

/// One step of UTF-16 decoding: the code point read from the head of
/// `units` and the number of units it took.  An unpaired surrogate gives
/// the replacement code point and takes one unit.
pub open spec fn utf16_take(units: Seq<u16>) -> (u32, int)
    recommends
        units.len() > 0,
{
    let a = units[0];
    if 0xD800 <= a && a <= 0xDBFF {
        if units.len() >= 2 && 0xDC00 <= units[1] && units[1] <= 0xDFFF {
            (
                (0x10000 + ((((a - 0xD800) as u32) << 10) as int) + ((units[1]
                    - 0xDC00) as u32)) as u32,
                2,
            )
        } else {
            (REPLACEMENT_CODE_POINT, 1)
        }
    } else if 0xDC00 <= a && a <= 0xDFFF {
        (REPLACEMENT_CODE_POINT, 1)
    } else {
        (a as u32, 1)
    }
}

/// The character an error message shows for one decoded code point:
/// carriage returns and line feeds become spaces.
pub open spec fn massaged_message_char(u: u32) -> char {
    if u == 0x0D || u == 0x0A {
        ' '
    } else {
        u as char
    }
}

/// The text of an error message, decoded from the UTF-16 units the
/// message-formatting call produced: carriage returns and line feeds
/// become spaces, and each unpaired surrogate becomes the replacement
/// character.
pub open spec fn message_chars(units: Seq<u16>) -> Seq<char>
    decreases units.len(),
{
    if units.len() == 0 {
        Seq::empty()
    } else {
        let (u, n) = utf16_take(units);
        seq![massaged_message_char(u)] + message_chars(units.skip(n))
    }
}

/// Decodes the UTF-16 units of a system error message into a string,
/// turning carriage returns and line feeds into spaces and each unpaired
/// surrogate into the replacement character.
pub fn message_from_utf16(units: &[u16]) -> (r: String)
    ensures
        r@ == message_chars(units@),
{
    let n = units.len();
    let mut buf: Vec<u8> = Vec::new();
    let mut i: usize = 0;
    let ghost mut done: Seq<char> = Seq::empty();
    proof {
        assert(units@.skip(0) =~= units@);
    }
    while i < n
        invariant
            i <= n,
            n == units@.len(),
            message_chars(units@) == done + message_chars(units@.skip(i as int)),
            buf@ == encode_utf8(done),
        decreases n - i,
    {
        let ghost rem = units@.skip(i as int);
        let a = *vstd::slice::slice_index_get(units, i);
        let point: u32;
        let consumed: usize;
        if 0xD800 <= a && a <= 0xDBFF {
            let mut paired = false;
            let mut b: u16 = 0;
            if i + 1 < n {
                b = *vstd::slice::slice_index_get(units, i + 1);
                paired = 0xDC00 <= b && b <= 0xDFFF;
            }
            if paired {
                let hi = (a - 0xD800) as u32;
                let lo = (b - 0xDC00) as u32;
                proof {
                    assert(hi << 10 <= 0xFFC00) by (bit_vector)
                        requires
                            hi <= 0x3FF,
                    ;
                }
                point = 0x10000 + (hi << 10) + lo;
                consumed = 2;
            } else {
                point = REPLACEMENT_CODE_POINT;
                consumed = 1;
            }
        } else if 0xDC00 <= a && a <= 0xDFFF {
            point = REPLACEMENT_CODE_POINT;
            consumed = 1;
        } else {
            point = a as u32;
            consumed = 1;
        }
        let scalar: u32 = if point == 0x0D || point == 0x0A {
            0x20
        } else {
            point
        };
        proof {
            assert(rem[0] == a);
            assert(rem.len() >= 2 ==> rem[1] == units@[i + 1]);
            assert(utf16_take(rem) == (point, consumed as int));
            let c = massaged_message_char(point);
            assert(c as u32 == scalar);
            lemma_encode_utf8_snoc(done, c);
            assert(done + seq![c] =~= done.push(c));
            assert(units@.skip(i + consumed) =~= rem.skip(consumed as int));
        }
        push_scalar_utf8(&mut buf, scalar);
        proof {
            done = done.push(massaged_message_char(point));
        }
        i = i + consumed;
    }
    proof {
        encode_utf8_valid_utf8(done);
        encode_utf8_decode_utf8(done);
    }
    match crate::string_from_utf8(buf) {
        Ok(s) => s,
        Err(b) => crate::string_from_utf8_lossy(b.as_slice()),
    }
}

/// The position of the first space at or after `i`, or the end of the
/// sequence if no space follows.
pub open spec fn token_end(chars: Seq<char>, i: int) -> int
    recommends
        0 <= i <= chars.len(),
    decreases chars.len() - i,
{
    if i < 0 || i >= chars.len() {
        chars.len() as int
    } else if chars[i] == ' ' {
        i
    } else {
        token_end(chars, i + 1)
    }
}

/// Positions of spaces bound the first space position.
proof fn lemma_token_end_bounds(chars: Seq<char>, i: int)
    requires
        0 <= i <= chars.len(),
    ensures
        i <= token_end(chars, i) <= chars.len(),
    decreases chars.len() - i,
{
    if i < chars.len() && chars[i] != ' ' {
        lemma_token_end_bounds(chars, i + 1);
    }
}

/// A stretch of non-spaces ending at a space, or at the end, locates the
/// first space exactly.
proof fn lemma_token_end_is(chars: Seq<char>, i: int, j: int)
    requires
        0 <= i <= j <= chars.len(),
        forall|k: int| i <= k < j ==> chars[k] != ' ',
        j == chars.len() || chars[j] == ' ',
    ensures
        token_end(chars, i) == j,
    decreases j - i,
{
    if i < j {
        lemma_token_end_is(chars, i + 1, j);
    }
}

/// The space-separated words of a character sequence, in order, with
/// empty pieces dropped.
pub open spec fn space_split(chars: Seq<char>) -> Seq<Seq<char>>
    decreases chars.len(),
    via space_split_decreases
{
    if chars.len() == 0 {
        Seq::empty()
    } else if chars[0] == ' ' {
        space_split(chars.drop_first())
    } else {
        seq![chars.take(token_end(chars, 0))] + space_split(chars.skip(token_end(chars, 0)))
    }
}

#[via_fn]
proof fn space_split_decreases(chars: Seq<char>) {
    if chars.len() > 0 && chars[0] != ' ' {
        lemma_token_end_bounds(chars, 1);
    }
}

/// Splits a space-separated extension list into its words, dropping the
/// empty pieces that doubled or leading spaces would give.
pub fn split_extension_list(s: &str) -> (r: Vec<String>)
    ensures
        r.deep_view() == space_split(s@),
{
    let n = s.unicode_len();
    let mut out: Vec<String> = Vec::new();
    let mut i: usize = 0;
    proof {
        assert(s@.skip(0) =~= s@);
    }
    while i < n
        invariant
            i <= n,
            n == s@.len(),
            space_split(s@) == out.deep_view() + space_split(s@.skip(i as int)),
        decreases n - i,
    {
        let c = s.get_char(i);
        if c == ' ' {
            proof {
                assert(s@.skip(i as int).drop_first() =~= s@.skip(i + 1));
            }
            i = i + 1;
        } else {
            let start = i;
            let mut j = i + 1;
            while j < n && s.get_char(j) != ' '
                invariant
                    start < j <= n,
                    n == s@.len(),
                    forall|k: int| start <= k < j ==> s@[k] != ' ',
                decreases n - j,
            {
                j = j + 1;
            }
            let token = s.substring_char(start, j);
            let owned = token.to_owned();
            let ghost before = out.deep_view();
            out.push(owned);
            proof {
                let rem = s@.skip(start as int);
                assert forall|k: int| 0 <= k < j - start implies rem[k] != ' ' by {
                    assert(rem[k] == s@[start + k]);
                }
                lemma_token_end_is(rem, 0, j - start);
                assert(rem.take(j - start) =~= s@.subrange(start as int, j as int));
                assert(rem.skip(j - start) =~= s@.skip(j as int));
                assert(out.deep_view() =~~= before + seq![token@]);
                assert(space_split(s@) =~~= out.deep_view() + space_split(s@.skip(j as int)));
            }
            i = j;
        }
    }
    proof {
        assert(out.deep_view() =~~= space_split(s@));
    }
    out
}

/// Sorts the outcome of a window-userdata call, which reports failure in
/// two parts: a zero result is a real error only when the thread's
/// last-error code is itself non-zero.
pub fn userdata_outcome(value: isize, last_error: Win32Error) -> (r: Result<isize, Win32Error>)
    ensures
        value == 0 && last_error.0 != 0 ==> r == Err::<isize, Win32Error>(last_error),
        !(value == 0 && last_error.0 != 0) ==> r == Ok::<isize, Win32Error>(value),
{
    if value == 0 && last_error.0 != 0 {
        Err(last_error)
    } else {
        Ok(value)
    }
}

/// Sorts the outcome of the pixel-format choosing procedure: the chosen
/// format stands only when the procedure reported success and filled in
/// exactly one format.
pub fn choose_pixel_format_outcome(
    succeeded: BOOL,
    format_count: UINT,
    format: c_int,
    last_error: Win32Error,
) -> (r: Result<c_int, Win32Error>)
    ensures
        succeeded != 0 && format_count == 1 ==> r == Ok::<c_int, Win32Error>(format),
        !(succeeded != 0 && format_count == 1) ==> r == Err::<c_int, Win32Error>(last_error),
{
    if succeeded != 0 && format_count == 1 {
        Ok(format)
    } else {
        Err(last_error)
    }
}

/// True of the handful of values that a procedure-address lookup returns
/// in place of a usable address.
pub fn is_proc_address_sentinel(p: usize) -> (r: bool)
    ensures
        r == (p == 0 || p == 1 || p == 2 || p == 3 || p == usize::MAX),
{
    p == 0 || p == 1 || p == 2 || p == 3 || p == usize::MAX
}

/// True when the byte slice is non-empty and its last byte is `0`, as a
/// C string handed across the procedure-address lookup must be.
pub fn name_is_null_terminated(name: &[u8]) -> (r: bool)
    ensures
        r == (name@.len() > 0 && name@.last() == 0),
{
    let n = name.len();
    n > 0 && *vstd::slice::slice_index_get(name, n - 1) == 0
}

/// True when a [key, value] attribute list is empty or its final pair has
/// a zero key, as the WGL attribute-taking procedures demand.
pub fn attrib_list_is_terminated(attrs: &[[c_int; 2]]) -> (r: bool)
    ensures
        r == (attrs@.len() == 0 || attrs@.last()[0] == 0),
{
    let n = attrs.len();
    if n == 0 {
        true
    } else {
        let last = vstd::slice::slice_index_get(attrs, n - 1);
        last[0] == 0
    }
}

} // verus!

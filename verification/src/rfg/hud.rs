//! The game's on-screen text.
use vstd::prelude::*;

verus! {

/// A render state of the game's 2D drawing.
#[derive(Clone, Copy)]
pub struct GrState {
    value: u32,
    tnl_value: u32,
}

/// The UTF-16 code units of one character.
pub open spec fn utf16_units(c: char) -> Seq<u16> {
    let v = c as int;
    if v < 0x10000 {
        seq![v as u16]
    } else {
        seq![(0xD800 + (v - 0x10000) / 0x400) as u16, (0xDC00 + (v - 0x10000) % 0x400) as u16]
    }
}

/// The UTF-16 encoding of a text.
pub open spec fn encode_utf16(text: Seq<char>) -> Seq<u16>
    decreases text.len(),
{
    if text.len() == 0 {
        Seq::empty()
    } else {
        encode_utf16(text.drop_last()) + utf16_units(text.last())
    }
}

/// Whether a text can become a wide C string: no nul but possibly as its
/// last character.
pub open spec fn nul_only_at_end(text: Seq<char>) -> bool {
    forall|i: int| 0 <= i < text.len() - 1 ==> text[i] != '\0'
}

/// The units of the wide C string made of a text: its UTF-16 encoding,
/// followed by a nul unless the text already ends with one.
pub open spec fn wide_c_string(text: Seq<char>) -> Seq<u16> {
    if text.len() > 0 && text.last() == '\0' {
        encode_utf16(text)
    } else {
        encode_utf16(text).push(0u16)
    }
}

/// `widestring::U16CString::from_str`, then `into_vec_with_nul`: the text
/// encoded as UTF-16 (by `str::encode_utf16`), refused where a nul stands
/// anywhere but last, and followed by a nul where it does not end with one
/// (its `from_vec` and `from_vec_unchecked`).
#[verifier::external_body]
fn u16_c_string(text: &str) -> (wide: Option<Vec<u16>>)
    ensures
        wide is Some <==> nul_only_at_end(text@),
        wide matches Some(w) ==> w@ == wide_c_string(text@),
{
    widestring::U16CString::from_str(text).ok().map(|s| s.into_vec_with_nul())
}

/// The wide C string that the game's secondary message call shows for a
/// text. A text with a nul anywhere but last cannot be shown.
pub fn secondary_message_text(text: &str) -> (wide: Vec<u16>)
    requires
        nul_only_at_end(text@),
    ensures
        wide@ == wide_c_string(text@),
{
    u16_c_string(text).unwrap()
}

} // verus!

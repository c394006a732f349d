//! Nul-terminated byte strings for Win32 calls, and the path of a module as
//! Win32 reports it.
use vstd::prelude::*;
use vstd::slice::slice_to_vec;
use vstd::utf8::{decode_utf8, encode_utf8, valid_utf8};

verus! {

/// The text that `String::from_utf8_lossy` makes of some bytes.
pub uninterp spec fn utf8_lossy_text(bytes: Seq<u8>) -> Seq<char>;

/// `String::from_utf8_lossy`, as an owned string: the bytes decoded as
/// UTF-8, with each invalid sequence replaced by U+FFFD. The contract names
/// the result and states, as its documentation does, that valid UTF-8 is
/// decoded unchanged; the replacement rule is left to the name.
#[verifier::external_body]
fn from_utf8_lossy(bytes: &[u8]) -> (text: String)
    ensures
        text@ == utf8_lossy_text(bytes@),
        valid_utf8(bytes@) ==> text@ == decode_utf8(bytes@),
{
    String::from_utf8_lossy(bytes).to_string()
}

/// Whether `bytes` holds no nul byte.
pub open spec fn nul_free(bytes: Seq<u8>) -> bool {
    forall|i: int| 0 <= i < bytes.len() ==> bytes[i] != 0u8
}

/// The bytes of `text` with a terminating nul, as a C string holds them;
/// nothing where `text` holds a nul, which a C string cannot.
pub fn c_string_bytes(text: &str) -> (bytes: Option<Vec<u8>>)
    ensures
        bytes is Some <==> nul_free(encode_utf8(text@)),
        bytes matches Some(b) ==> b@ == encode_utf8(text@).push(0u8),
{
    let raw = text.as_bytes();
    let mut i: usize = 0;
    while i < raw.len()
        invariant
            raw@ == encode_utf8(text@),
            i <= raw@.len(),
            forall|j: int| 0 <= j < i ==> raw@[j] != 0u8,
        decreases raw@.len() - i,
    {
        if raw[i] == 0u8 {
            return None;
        }
        i = i + 1;
    }
    let mut bytes = slice_to_vec(raw);
    bytes.push(0u8);
    Some(bytes)
}

/// The C string shown by a message box: the text with a terminating nul, or
/// the empty C string (a lone nul) where the text holds a nul.
pub fn c_string_or_empty(text: &str) -> (bytes: Vec<u8>)
    ensures
        nul_free(encode_utf8(text@)) ==> bytes@ == encode_utf8(text@).push(0u8),
        !nul_free(encode_utf8(text@)) ==> bytes@ == seq![0u8],
{
    match c_string_bytes(text) {
        Some(bytes) => bytes,
        None => {
            let mut bytes: Vec<u8> = Vec::new();
            bytes.push(0u8);
            assert(bytes@ =~= seq![0u8]);
            bytes
        },
    }
}

/// The path of a module from the buffer that Win32 filled and the length it
/// reported: nothing where the length is zero (the call failed) or fills the
/// whole buffer (the path may have been cut); else the first `len` bytes.
pub fn module_path_bytes(buffer: Vec<u8>, len: usize) -> (path: Option<Vec<u8>>)
    ensures
        path is Some <==> (len != 0 && len < buffer@.len()),
        path matches Some(p) ==> p@ == buffer@.take(len as int),
{
    if len == 0 || len >= buffer.len() {
        return None;
    }
    let mut buffer = buffer;
    buffer.truncate(len);
    Some(buffer)
}

/// The path of a module as text: the bytes that `module_path_bytes`
/// keeps, decoded as UTF-8 with invalid sequences replaced.
pub fn module_path_text(buffer: Vec<u8>, len: usize) -> (path: Option<String>)
    ensures
        path is Some <==> (len != 0 && len < buffer@.len()),
        path matches Some(p) ==> p@ == utf8_lossy_text(buffer@.take(len as int)),
        path matches Some(p) ==> valid_utf8(buffer@.take(len as int)) ==> p@ == decode_utf8(
            buffer@.take(len as int),
        ),
{
    match module_path_bytes(buffer, len) {
        Some(bytes) => Some(from_utf8_lossy(bytes.as_slice())),
        None => None,
    }
}

} // verus!

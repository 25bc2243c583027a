//! Names as the platform reports them, and as it wants them.

use vstd::prelude::*;
use vstd::slice::slice_subrange;
use vstd::string::StringSliceAdditionalSpecFns;

verus! {

/// The lowercase form of a text, as `str::to_lowercase` computes it.
pub uninterp spec fn lowercase(text: Seq<char>) -> Seq<char>;

/// The text that `String::from_utf16_lossy` makes of UTF-16 code units.
pub uninterp spec fn utf16_lossy(units: Seq<u16>) -> Seq<char>;

/// The text that `String::from_utf8_lossy` makes of bytes.
pub uninterp spec fn utf8_lossy(bytes: Seq<u8>) -> Seq<char>;

/// Two names are the same name when their lowercase forms are equal.
pub open spec fn names_match(left: Seq<char>, right: Seq<char>) -> bool {
    lowercase(left) == lowercase(right)
}

/// Calls `str::to_lowercase`.
///
/// Trusted: the result depends on the text alone; `lowercase` is the name of
/// that dependence and nothing else is claimed of it.
#[verifier::external_body]
fn to_lowercase(text: &str) -> (lowered: String)
    ensures
        lowered@ == lowercase(text@),
{
    text.to_lowercase()
}

/// Calls `String::from_utf16_lossy`.
///
/// Trusted: the result depends on the code units alone; `utf16_lossy` is the
/// name of that dependence.
#[verifier::external_body]
fn string_from_utf16_lossy(units: &[u16]) -> (text: String)
    ensures
        text@ == utf16_lossy(units@),
{
    String::from_utf16_lossy(units)
}

/// Calls `String::from_utf8_lossy` and takes ownership of what it returns.
///
/// Trusted: the result depends on the bytes alone; `utf8_lossy` is the name
/// of that dependence.
#[verifier::external_body]
fn string_from_utf8_lossy(bytes: &[u8]) -> (text: String)
    ensures
        text@ == utf8_lossy(bytes@),
{
    String::from_utf8_lossy(bytes).into_owned()
}

/// Whether two texts that are already in lowercase form are the same.
pub fn lowered_equal(left: &String, right: &String) -> (equal: bool)
    ensures
        equal == (left@ == right@),
{
    *left == *right
}

/// Whether two names are the same when case is ignored.
pub fn same_name(left: &str, right: &str) -> (same: bool)
    ensures
        same == names_match(left@, right@),
{
    let left_lowered = to_lowercase(left);
    let right_lowered = to_lowercase(right);
    lowered_equal(&left_lowered, &right_lowered)
}

/// What the platform wrote when asked for a name in UTF-16: nothing, which
/// is how it reports failure, or the text of the first `written` code units.
pub open spec fn wide_name(buffer: Seq<u16>, written: u32) -> Option<Seq<char>> {
    if written == 0 {
        None
    } else {
        Some(utf16_lossy(buffer.subrange(0, written as int)))
    }
}

/// Reads a name out of the buffer the platform filled with `written` UTF-16
/// code units. `None` stands for the platform's report of failure.
pub fn decode_wide_name(buffer: &[u16], written: u32) -> (name: Option<String>)
    requires
        written <= buffer@.len(),
    ensures
        match name {
            Some(text) => wide_name(buffer@, written) == Some(text@),
            None => wide_name(buffer@, written) is None,
        },
{
    if written == 0 {
        None
    } else {
        Some(string_from_utf16_lossy(slice_subrange(buffer, 0, written as usize)))
    }
}

/// What the platform wrote when asked for a path in bytes: nothing, which is
/// how it reports failure, or the text of the first `written` bytes.
pub open spec fn narrow_name(buffer: Seq<u8>, written: u32) -> Option<Seq<char>> {
    if written == 0 {
        None
    } else {
        Some(utf8_lossy(buffer.subrange(0, written as int)))
    }
}

/// Reads a path out of the buffer the platform filled with `written` bytes.
/// `None` stands for the platform's report of failure.
pub fn decode_narrow_name(buffer: &[u8], written: u32) -> (name: Option<String>)
    requires
        written <= buffer@.len(),
    ensures
        match name {
            Some(text) => narrow_name(buffer@, written) == Some(text@),
            None => narrow_name(buffer@, written) is None,
        },
{
    if written == 0 {
        None
    } else {
        Some(string_from_utf8_lossy(slice_subrange(buffer, 0, written as usize)))
    }
}

/// The bytes of a text followed by the terminating zero, if no zero occurs
/// among the bytes themselves.
pub open spec fn terminated(bytes: Seq<u8>) -> Option<Seq<u8>> {
    if bytes.contains(0u8) {
        None
    } else {
        Some(bytes.push(0u8))
    }
}

/// Encodes a text as the zero-terminated byte string the platform expects.
/// A text that holds a zero byte has no such encoding.
pub fn null_terminated(text: &str) -> (encoded: Option<Vec<u8>>)
    ensures
        match encoded {
            Some(bytes) => terminated(text.spec_bytes()) == Some(bytes@),
            None => terminated(text.spec_bytes()) is None,
        },
{
    let source = text.as_bytes();
    let mut bytes: Vec<u8> = Vec::new();
    let mut i: usize = 0;
    while i < source.len()
        invariant
            i <= source@.len(),
            source@ == text.spec_bytes(),
            bytes@ == source@.subrange(0, i as int),
            !source@.subrange(0, i as int).contains(0u8),
        decreases source@.len() - i,
    {
        let byte: u8 = source[i];
        if byte == 0 {
            assert(source@[i as int] == 0u8);
            return None;
        }
        bytes.push(byte);
        assert(source@.subrange(0, i + 1) =~= source@.subrange(0, i as int).push(byte));
        i = i + 1;
    }
    assert(source@.subrange(0, i as int) =~= source@);
    bytes.push(0);
    Some(bytes)
}

} // verus!

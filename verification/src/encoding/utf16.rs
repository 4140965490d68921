//! Text for the engine as UTF-16.

use super::{StringEncoding, UTF16LE};
use crate::GsArgEncoding;
use vstd::prelude::*;

verus! {

/// The UTF-16 encoding. The engine turns what it gets into UTF-8 at once, so
/// this offers nothing that UTF-8 does not.
#[derive(Debug, Clone, Copy, PartialEq, Eq, Structural, PartialOrd, Ord)]
pub struct Utf16;

/// What `widestring::U16CString::from_str` makes of a text, taken out with
/// `into_vec_with_nul`: the UTF-16 units of the text with the closing zero, or
/// `None` where it refuses the text.
pub uninterp spec fn wide_c_string(text: Seq<char>) -> Option<Seq<u16>>;

/// `widestring::U16CString::from_str` encodes a text as UTF-16 and refuses it
/// where a zero stands anywhere but at its end; `into_vec_with_nul` hands out
/// the units, which end in a zero and hold no other. The result depends on
/// the text alone.
#[verifier::external_body]
fn to_wide_c_string(s: &str) -> (units: Option<Vec<u16>>)
    ensures
        match units {
            Some(units) => {
                &&& wide_c_string(s@) == Some(units@)
                &&& units@.len() > 0
                &&& units@.last() == 0
                &&& forall|i: int| 0 <= i < units@.len() - 1 ==> units@[i] != 0
            },
            None => wide_c_string(s@) is None,
        },
{
    match widestring::U16CString::from_str(s) {
        Ok(wide) => Some(wide.into_vec_with_nul()),
        Err(_) => None,
    }
}

impl Utf16 {
    /// Whether a text can be encoded for the engine.
    pub fn can_encode(s: &str) -> (encodable: bool)
        ensures
            encodable == wide_c_string(s@) is Some,
    {
        to_wide_c_string(s).is_some()
    }

    /// Encodes a text for the engine, or says `None` where it holds a zero
    /// that the engine would take for its end.
    pub fn try_from_rust_to_ffi(s: &str) -> (encoded: Option<Vec<u16>>)
        ensures
            match encoded {
                Some(units) => wide_c_string(s@) == Some(units@),
                None => wide_c_string(s@) is None,
            },
    {
        if Self::can_encode(s) {
            Some(Self::from_rust_to_ffi(s))
        } else {
            None
        }
    }
}

impl StringEncoding for Utf16 {
    type RustType = str;

    type FfiType = Vec<u16>;

    fn ghostscript_encoding() -> (encoding: GsArgEncoding)
        ensures
            encoding == UTF16LE,
    {
        UTF16LE
    }

    open spec fn encodable(s: &str) -> bool {
        wide_c_string(s@) is Some
    }

    /// The UTF-16 units of the text, then a zero.
    fn from_rust_to_ffi(s: &str) -> (encoded: Vec<u16>)
        ensures
            wide_c_string(s@) == Some(encoded@),
            encoded@.len() > 0,
            encoded@.last() == 0,
    {
        to_wide_c_string(s).unwrap()
    }
}

} // verus!

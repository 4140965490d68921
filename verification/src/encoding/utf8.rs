//! Text for the engine as UTF-8.

use super::{StringEncoding, UTF8};
use crate::GsArgEncoding;
use vstd::prelude::*;
use vstd::string::StringSliceAdditionalSpecFns;

verus! {

/// The UTF-8 encoding, which the engine is told to expect.
#[derive(Debug, Clone, Copy, PartialEq, Eq, Structural, PartialOrd, Ord)]
pub struct Utf8;

/// Whether a sequence of bytes holds no zero.
pub open spec fn no_nul(bytes: Seq<u8>) -> bool {
    forall|i: int| 0 <= i < bytes.len() ==> bytes[i] != 0
}

/// The text as the engine reads it: its bytes, then a zero.
pub open spec fn c_string(bytes: Seq<u8>) -> Seq<u8> {
    bytes.push(0u8)
}

/// Whether the text holds a zero byte, and so cannot be handed to the engine.
pub fn has_nul(s: &str) -> (found: bool)
    ensures
        found == !no_nul(s.spec_bytes()),
{
    let bytes = s.as_bytes();
    let mut i: usize = 0;
    while i < bytes.len()
        invariant
            i <= bytes.len(),
            bytes@ == s.spec_bytes(),
            forall|j: int| 0 <= j < i ==> bytes@[j] != 0,
        decreases bytes.len() - i,
    {
        if bytes[i] == 0 {
            return true;
        }
        i = i + 1;
    }
    false
}

impl StringEncoding for Utf8 {
    type RustType = str;

    type FfiType = Vec<u8>;

    fn ghostscript_encoding() -> (encoding: GsArgEncoding)
        ensures
            encoding == UTF8,
    {
        UTF8
    }

    open spec fn encodable(s: &str) -> bool {
        no_nul(s.spec_bytes())
    }

    /// The bytes of the text, then a zero.
    fn from_rust_to_ffi(s: &str) -> (encoded: Vec<u8>)
        ensures
            encoded@ == c_string(s.spec_bytes()),
    {
        let mut encoded = s.as_bytes_vec();
        encoded.push(0);
        encoded
    }
}

} // verus!

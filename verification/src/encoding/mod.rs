//! How text is encoded for the engine.

pub mod utf16;
pub mod utf8;

use crate::GsArgEncoding;
use vstd::prelude::*;

verus! {

/// The engine reads arguments in the encoding of the machine's locale.
pub const LOCAL: GsArgEncoding = 0;

/// The engine reads arguments as UTF-8.
pub const UTF8: GsArgEncoding = 1;

/// The engine reads arguments as little-endian UTF-16.
pub const UTF16LE: GsArgEncoding = 2;

/// An encoding in which text can be handed to the engine.
pub trait StringEncoding {
    /// The text as the program holds it.
    type RustType: ?Sized;

    /// The text as the engine reads it: its code units, then a zero.
    type FfiType;

    /// The number by which the engine knows this encoding.
    fn ghostscript_encoding() -> GsArgEncoding;

    /// Whether a text can be encoded: the engine reads up to the first zero,
    /// so a text that holds one cannot.
    spec fn encodable(s: &Self::RustType) -> bool;

    /// Encodes a text for the engine.
    fn from_rust_to_ffi(s: &Self::RustType) -> Self::FfiType
        requires
            Self::encodable(s),
    ;
}

} // verus!

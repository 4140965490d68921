//! What the engine calls back into: raster delivery, polling and the standard
//! streams, with the conversions between the engine's conventions and the
//! user's methods.

pub mod display;
pub mod panic;
pub mod poll;
pub mod stdio;

use vstd::prelude::*;

verus! {

/// The user's data of an instance that is called back for nothing.
#[derive(Debug, Default, Clone, Copy, Hash, Eq, PartialEq, Ord, PartialOrd)]
pub struct NoCallback(pub ());

/// A holder of the user's data whose data stays at one address for as long as
/// the holder lives, wherever the holder itself is moved. The engine keeps
/// that address and hands it to every callback.
pub trait CallbackSafe {
    /// The user's data.
    type Target: ?Sized;

    /// The user's data, at the address where it stays.
    fn as_stable_mut(&mut self) -> &mut Self::Target;
}

impl CallbackSafe for NoCallback {
    type Target = ();

    fn as_stable_mut(&mut self) -> &mut () {
        &mut self.0
    }
}

} // verus!

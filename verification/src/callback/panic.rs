//! What happens when the user's code unwinds inside a callback.

use crate::error::ErrCode;
use crate::GS_OK;
use vstd::prelude::*;

verus! {

/// What the bridge does after the user's code unwound inside a callback.
#[derive(Copy, Clone, Debug, PartialEq, Eq, Structural)]
pub enum PanicAction {
    /// End the process at once. The engine's frames above the callback cannot
    /// be unwound, so this is the only choice that is always sound.
    Abort,
    /// Hand this status back to the engine in place of the callback's own.
    Report(ErrCode),
}

/// Whether the user's data is as it was.
pub open spec fn untouched<T: ?Sized>(before: &T, after: &T) -> bool {
    after == before
}

/// What a callback does unless the user says otherwise: it leaves the user's
/// data as it was and answers with success.
pub open spec fn passed_over<T: ?Sized>(before: &T, after: &T, status: ErrCode) -> bool {
    untouched(before, after) && status == ErrCode(GS_OK)
}

/// The policy for an unwind that escapes the user's code in a callback.
pub trait PanicCallback {
    /// What this implementor's own policy may decide for an unwind of the
    /// callback `callback_name`, called for the user object at the address
    /// `callback`. An implementor that does not end the process says here
    /// what it does instead.
    open spec fn panic_policy(
        callback: usize,
        callback_name: &'static str,
        action: PanicAction,
    ) -> bool {
        false
    }

    /// Decides what the bridge does after the callback `callback_name`, called
    /// for the user object at address `callback`, unwound. Unless the user
    /// says otherwise the process ends.
    fn on_callback_panic(callback: usize, callback_name: &'static str) -> (action: PanicAction)
        ensures
            Self::panic_policy(callback, callback_name, action) || action == PanicAction::Abort,
    {
        PanicAction::Abort
    }
}

/// How one run of the user's code in a callback ended.
#[derive(Debug)]
pub enum CallbackOutcome<R> {
    /// The user's method returned this value.
    Returned(R),
    /// The user's method unwound, and the panic policy chose this status.
    Panicked(ErrCode),
}

/// What the engine gets back from a callback that answers with a status: the
/// raw status of the user's method, or of the panic policy where it unwound.
pub open spec fn status_of(outcome: CallbackOutcome<ErrCode>) -> i32 {
    match outcome {
        CallbackOutcome::Returned(code) => code.0,
        CallbackOutcome::Panicked(code) => code.0,
    }
}

/// Converts the outcome of a callback that answers with a status into the
/// integer that the engine expects.
pub fn status_reply(outcome: CallbackOutcome<ErrCode>) -> (raw: i32)
    ensures
        raw == status_of(outcome),
{
    match outcome {
        CallbackOutcome::Returned(code) => code.raw_err(),
        CallbackOutcome::Panicked(code) => code.raw_err(),
    }
}

} // verus!

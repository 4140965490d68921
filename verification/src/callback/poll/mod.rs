//! Polling: the engine asks at intervals of its own choosing whether to go on.

pub mod ffi_callbacks;

use crate::callback::panic::{passed_over, PanicCallback};
use crate::error::ErrCode;
use crate::GS_OK;
use vstd::prelude::*;

verus! {

/// The capability to be polled. Any status but success asks the engine to
/// stop what it is doing.
pub trait PollCallback: PanicCallback {
    /// What this implementor's own `poll` does: how it leaves the data and
    /// which status it answers with. An implementor that does more than let
    /// the engine go on says so here.
    open spec fn poll_does(&self, after: &Self, status: ErrCode) -> bool {
        false
    }

    /// Called by the engine now and then during long work. Unless the user
    /// says otherwise the engine goes on.
    fn poll(&mut self) -> (status: ErrCode)
        ensures
            old(self).poll_does(final(self), status) || passed_over(old(self), final(self), status),
    {
        ErrCode(GS_OK)
    }
}

} // verus!

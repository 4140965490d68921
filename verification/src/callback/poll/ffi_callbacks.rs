//! The bridge for polling.

use super::PollCallback;
use crate::callback::panic::passed_over;
use crate::error::ErrCode;
use vstd::prelude::*;

verus! {

/// Runs the user's poll method for the engine. The status is the user's to
/// choose; the bridge hands it on as it is, and leaves the data as the
/// user's method left it.
pub fn poll_callback<T: PollCallback>(cb: &mut T) -> (status: ErrCode)
    ensures
        old(cb).poll_does(final(cb), status) || passed_over(old(cb), final(cb), status),
{
    cb.poll()
}

} // verus!

//! The bridge for the standard streams.

use super::{all_dropped, nothing_read, StdioCallback};
use crate::callback::panic::CallbackOutcome;
use vstd::prelude::*;

verus! {

/// What the engine gets back from its request for input: the count of bytes
/// read, cut to the engine's integer, and -1 where the user reported a failure
/// or unwound.
pub open spec fn input_count(outcome: CallbackOutcome<Option<usize>>) -> i32 {
    match outcome {
        CallbackOutcome::Returned(Some(count)) => count as i32,
        CallbackOutcome::Returned(None) => -1i32,
        CallbackOutcome::Panicked(_) => -1i32,
    }
}

/// What the engine gets back after it handed over output: the count of bytes
/// taken, cut to the engine's integer, and 0 where the user unwound.
pub open spec fn output_count(outcome: CallbackOutcome<usize>) -> i32 {
    match outcome {
        CallbackOutcome::Returned(count) => count as i32,
        CallbackOutcome::Panicked(_) => 0i32,
    }
}

/// Runs the user's input method on the engine's buffer: the buffer, the
/// user's data and the count are as that method left them.
pub fn stdin_callback<T: StdioCallback>(cb: &mut T, buf: &mut [u8]) -> (count: Option<usize>)
    ensures
        old(cb).stdin_does(old(buf)@, final(cb), final(buf)@, count) || nothing_read(
            old(cb),
            old(buf)@,
            final(cb),
            final(buf)@,
            count,
        ),
{
    cb.read_stdin(buf)
}

/// Runs the user's output method on the engine's bytes: the user's data and
/// the count are as that method left them.
pub fn stdout_callback<T: StdioCallback>(cb: &mut T, buf: &[u8]) -> (count: usize)
    ensures
        old(cb).stdout_does(buf@, final(cb), count) || all_dropped(
            old(cb),
            buf@,
            final(cb),
            count,
        ),
{
    cb.write_stdout(buf)
}

/// Runs the user's error-output method on the engine's bytes: the user's
/// data and the count are as that method left them.
pub fn stderr_callback<T: StdioCallback>(cb: &mut T, buf: &[u8]) -> (count: usize)
    ensures
        old(cb).stderr_does(buf@, final(cb), count) || old(cb).stdout_does(
            buf@,
            final(cb),
            count,
        ) || all_dropped(old(cb), buf@, final(cb), count),
{
    cb.write_stderr(buf)
}

/// Converts the outcome of the input callback into the integer that the
/// engine expects.
pub fn stdin_reply(outcome: CallbackOutcome<Option<usize>>) -> (raw: i32)
    ensures
        raw == input_count(outcome),
{
    match outcome {
        CallbackOutcome::Returned(Some(count)) => {
            #[verifier::truncate]
            (count as i32)
        },
        CallbackOutcome::Returned(None) => -1,
        CallbackOutcome::Panicked(_) => -1,
    }
}

/// Converts the outcome of an output callback into the integer that the
/// engine expects.
pub fn stdout_reply(outcome: CallbackOutcome<usize>) -> (raw: i32)
    ensures
        raw == output_count(outcome),
{
    match outcome {
        CallbackOutcome::Returned(count) => {
            #[verifier::truncate]
            (count as i32)
        },
        CallbackOutcome::Panicked(_) => 0,
    }
}

} // verus!

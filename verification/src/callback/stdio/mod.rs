//! Redirection of the engine's standard streams.

pub mod ffi_callbacks;

use crate::callback::panic::{untouched, PanicCallback};
use vstd::prelude::*;

verus! {

/// What the input method does unless the user says otherwise: there is
/// nothing to read, so the buffer and the user's data stay as they were and
/// the count is zero.
pub open spec fn nothing_read<T: ?Sized>(
    before: &T,
    buf: Seq<u8>,
    after: &T,
    filled: Seq<u8>,
    count: Option<usize>,
) -> bool {
    untouched(before, after) && filled == buf && count == Some(0usize)
}

/// What an output method does unless the user says otherwise: everything is
/// taken and dropped, and the user's data stays as it was.
pub open spec fn all_dropped<T: ?Sized>(before: &T, buf: Seq<u8>, after: &T, count: usize)
    -> bool {
    untouched(before, after) && count == buf.len()
}

/// The capability to stand in for the engine's standard streams.
pub trait StdioCallback: PanicCallback {
    /// What this implementor's own `read_stdin` does with a buffer that held
    /// `buf`: how it leaves the data, what the buffer holds afterwards, and
    /// what it answers. An implementor that has input says so here.
    open spec fn stdin_does(
        &self,
        buf: Seq<u8>,
        after: &Self,
        filled: Seq<u8>,
        count: Option<usize>,
    ) -> bool {
        false
    }

    /// What this implementor's own `write_stdout` does with the bytes `buf`:
    /// how it leaves the data and how many bytes it says it took. An
    /// implementor that keeps the output says so here.
    open spec fn stdout_does(&self, buf: Seq<u8>, after: &Self, count: usize) -> bool {
        false
    }

    /// What this implementor's own `write_stderr` does with the bytes `buf`.
    /// An implementor that parts error output from output says so here.
    open spec fn stderr_does(&self, buf: Seq<u8>, after: &Self, count: usize) -> bool {
        false
    }

    /// Fills `_buf` with input and says how many bytes were written to it;
    /// `None` reports a failure. Unless the user says otherwise there is
    /// nothing to read: the stream is at its end.
    fn read_stdin(&mut self, _buf: &mut [u8]) -> (count: Option<usize>)
        ensures
            old(self).stdin_does(old(_buf)@, final(self), final(_buf)@, count) || nothing_read(
                old(self),
                old(_buf)@,
                final(self),
                final(_buf)@,
                count,
            ),
    {
        Some(0)
    }

    /// Takes output and says how many bytes of it were taken. Unless the user
    /// says otherwise everything is taken and dropped.
    fn write_stdout(&mut self, buf: &[u8]) -> (count: usize)
        ensures
            old(self).stdout_does(buf@, final(self), count) || all_dropped(
                old(self),
                buf@,
                final(self),
                count,
            ),
    {
        buf.len()
    }

    /// Takes error output and says how many bytes of it were taken. Unless
    /// the user says otherwise it goes where the output goes.
    fn write_stderr(&mut self, buf: &[u8]) -> (count: usize)
        ensures
            old(self).stderr_does(buf@, final(self), count) || old(self).stdout_does(
                buf@,
                final(self),
                count,
            ) || all_dropped(old(self), buf@, final(self), count),
    {
        self.write_stdout(buf)
    }
}

} // verus!

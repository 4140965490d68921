//! Feeding program text to the engine piece by piece.
//!
//! A session begins with the engine's "begin" call, takes any number of
//! pieces through "continue", and ends with "end". The calls are made by a
//! driver outside this crate; the session decides which call is due and what
//! the engine's answer means.

use super::{InterpreterResult, PostscriptExitCode};
use crate::error::consts::{NEED_INPUT, QUIT};
use crate::error::ErrCode;
use crate::GS_OK;
use vstd::prelude::*;

verus! {

/// The most bytes that one "continue" call takes.
pub const MAX_BYTES_PER_WRITE: usize = 65_535;

/// Where a streaming session stands.
#[derive(Debug, Copy, Clone, PartialEq, Eq, Structural)]
pub enum State {
    /// The engine takes more input.
    Running,
    /// The engine gave its final answer, which is kept. It is not called
    /// again for this session.
    Completed(InterpreterResult),
    /// The session was closed. Nothing but dropping it is left to do.
    Closed,
}

/// What a write has to do.
#[derive(Debug, Copy, Clone, PartialEq, Eq)]
pub enum WriteAction {
    /// Hand the first `len` bytes of the buffer to the engine's "continue"
    /// call, then report its answer to the session.
    Forward { len: usize },
    /// The engine is not called. The write ends at once with this outcome.
    Settled(Result<usize, ErrCode>),
}

/// What closing a session has to do.
#[derive(Debug, Copy, Clone, PartialEq, Eq, Structural)]
pub enum CloseAction {
    /// Make the engine's "end" call. Its answer is the result of the session.
    End,
    /// The engine is not called. The kept answer is the result of the session.
    Finished(InterpreterResult),
}

/// How many bytes of a buffer one write takes: all of it up to the most that
/// one call takes.
pub open spec fn chunk_len(buf_len: nat) -> nat {
    if buf_len <= MAX_BYTES_PER_WRITE {
        buf_len
    } else {
        MAX_BYTES_PER_WRITE as nat
    }
}

/// The outcome of a write once the engine's final answer is known. An
/// interpreter that left is no error: what was to be written counts as
/// written. Any other answer is the error of the write.
pub open spec fn settled(result: InterpreterResult, write_len: usize) -> Result<usize, ErrCode> {
    if result.0 == ErrCode(QUIT) {
        Ok(write_len)
    } else {
        Err(result.0)
    }
}

/// What a write of `buf_len` bytes has to do in a state that is not closed.
pub open spec fn write_action(state: State, buf_len: usize) -> WriteAction {
    match state {
        State::Completed(result) => WriteAction::Settled(
            settled(result, chunk_len(buf_len as nat) as usize),
        ),
        _ => WriteAction::Forward { len: chunk_len(buf_len as nat) as usize },
    }
}

/// The state after the engine answered a "continue" call: it stays as it is
/// while the engine wants more input, and is completed by any other answer.
pub open spec fn state_after_reply(status: i32, exit_code: PostscriptExitCode) -> State {
    if status == NEED_INPUT {
        State::Running
    } else {
        State::Completed(InterpreterResult(ErrCode(status), exit_code))
    }
}

/// The outcome of a write of `write_len` bytes that the engine answered.
pub open spec fn reply_outcome(status: i32, exit_code: PostscriptExitCode, write_len: usize)
    -> Result<usize, ErrCode> {
    if status == NEED_INPUT {
        Ok(write_len)
    } else {
        settled(InterpreterResult(ErrCode(status), exit_code), write_len)
    }
}

/// What closing has to do in a state that is not closed.
pub open spec fn close_action(state: State) -> CloseAction {
    match state {
        State::Completed(result) => CloseAction::Finished(result),
        _ => CloseAction::End,
    }
}

/// After the engine's final answer every write ends at once, without the
/// engine, and with the same outcome for the same length: the length that
/// would have been written where the interpreter left, the kept status as
/// the error else.
pub proof fn lemma_completed_writes_repeat(result: InterpreterResult, buf_len: usize)
    ensures
        write_action(State::Completed(result), buf_len) is Settled,
        result.0 == ErrCode(QUIT) ==> write_action(State::Completed(result), buf_len)
            == WriteAction::Settled(Ok(chunk_len(buf_len as nat) as usize)),
        result.0 != ErrCode(QUIT) ==> write_action(State::Completed(result), buf_len)
            == WriteAction::Settled(Err(result.0)),
        chunk_len(buf_len as nat) <= buf_len,
        chunk_len(buf_len as nat) <= MAX_BYTES_PER_WRITE,
{
}

/// A streaming session on an instance.
#[derive(Debug)]
pub struct GhostscriptStream {
    state: State,
}

impl View for GhostscriptStream {
    type V = State;

    closed spec fn view(&self) -> State {
        self.state
    }
}

impl GhostscriptStream {
    /// Reads the engine's answer to the "begin" call: a session that takes
    /// input on success, the answer as the error else.
    pub fn new(status: i32, exit_code: PostscriptExitCode) -> (stream: Result<
        GhostscriptStream,
        InterpreterResult,
    >)
        ensures
            status == GS_OK ==> stream is Ok && stream->Ok_0@ == State::Running,
            status != GS_OK ==> stream == Err::<GhostscriptStream, InterpreterResult>(
                InterpreterResult(ErrCode(status), exit_code),
            ),
    {
        if status != GS_OK {
            return Err(InterpreterResult(ErrCode(status), exit_code));
        }
        Ok(GhostscriptStream { state: State::Running })
    }

    /// Whether the engine gave its final answer.
    pub fn is_completed(&self) -> (completed: bool)
        requires
            self@ != State::Closed,
        ensures
            completed == (self@ is Completed),
    {
        match self.state {
            State::Completed(_) => true,
            _ => false,
        }
    }

    /// Whether the session was closed.
    pub fn is_closed(&self) -> (closed: bool)
        ensures
            closed == (self@ == State::Closed),
    {
        match self.state {
            State::Closed => true,
            _ => false,
        }
    }

    /// What a write of a buffer of `buf_len` bytes has to do. After the
    /// engine's final answer it is not called again.
    pub fn write(&self, buf_len: usize) -> (action: WriteAction)
        requires
            self@ != State::Closed,
        ensures
            action == write_action(self@, buf_len),
    {
        let write_len: usize = if buf_len <= MAX_BYTES_PER_WRITE {
            buf_len
        } else {
            MAX_BYTES_PER_WRITE
        };
        match self.state {
            State::Completed(result) => WriteAction::Settled(settle(result, write_len)),
            _ => WriteAction::Forward { len: write_len },
        }
    }

    /// Takes the engine's answer to the "continue" call that a write of
    /// `write_len` bytes made.
    pub fn write_reply(&mut self, write_len: usize, status: i32, exit_code: PostscriptExitCode)
        -> (outcome: Result<usize, ErrCode>)
        requires
            old(self)@ == State::Running,
        ensures
            final(self)@ == state_after_reply(status, exit_code),
            outcome == reply_outcome(status, exit_code, write_len),
        no_unwind
    {
        if status == NEED_INPUT {
            return Ok(write_len);
        }
        let result = InterpreterResult(ErrCode(status), exit_code);
        self.state = State::Completed(result);
        settle(result, write_len)
    }

    /// Nothing is held back, so there is nothing to flush.
    pub fn flush(&mut self) -> (outcome: Result<(), ErrCode>)
        ensures
            outcome == Ok::<(), ErrCode>(()),
            final(self)@ == old(self)@,
    {
        Ok(())
    }

    /// Closes the session and says what is left to do for its result.
    pub fn close(&mut self) -> (action: CloseAction)
        requires
            old(self)@ != State::Closed,
        ensures
            action == close_action(old(self)@),
            final(self)@ == State::Closed,
        no_unwind
    {
        let action = match self.state {
            State::Completed(result) => CloseAction::Finished(result),
            _ => CloseAction::End,
        };
        self.state = State::Closed;
        action
    }

    /// What is left to do when the session is dropped: nothing where it was
    /// closed, else what closing does. The result of a session that is closed
    /// this way is lost to the caller, which is worth a note in a log.
    pub fn drop(&mut self) -> (action: Option<CloseAction>)
        ensures
            old(self)@ == State::Closed ==> action is None,
            old(self)@ != State::Closed ==> action == Some(close_action(old(self)@)),
            final(self)@ == State::Closed,
    {
        if self.is_closed() {
            return None;
        }
        Some(self.close())
    }
}

/// The outcome of a write once the engine's final answer is known.
pub fn settle(result: InterpreterResult, write_len: usize) -> (outcome: Result<usize, ErrCode>)
    ensures
        outcome == settled(result, write_len),
    no_unwind
{
    if result.0.0 == QUIT {
        Ok(write_len)
    } else {
        Err(result.0)
    }
}

} // verus!

//! Running program text through an instance.

pub mod gs;
pub mod stream;

use crate::encoding::utf8::{c_string, no_nul, Utf8};
use crate::encoding::StringEncoding;
use crate::error::ErrCode;
use crate::instance::Ghostscript;
use crate::GsPExitCode;
use vstd::prelude::*;
use vstd::string::StringSliceAdditionalSpecFns;

verus! {

/// The exit code that the interpreter hands back beside its status.
pub type PostscriptExitCode = GsPExitCode;

/// What the engine answers when it ran program text: its status and the
/// interpreter's exit code.
#[derive(Debug, Copy, Clone, Eq, PartialEq, Structural, Ord, PartialOrd)]
pub struct InterpreterResult(pub ErrCode, pub PostscriptExitCode);

impl InterpreterResult {
    /// The answer made of a raw status and an exit code.
    pub fn from_reply(status: i32, exit_code: PostscriptExitCode) -> (result: InterpreterResult)
        ensures
            result == InterpreterResult(ErrCode(status), exit_code),
    {
        InterpreterResult(ErrCode(status), exit_code)
    }
}

impl<T> Ghostscript<T> {
    /// The name of a file as the engine reads it, for the call that runs the
    /// file. The name may not hold a zero byte.
    pub fn file_name_argument(&self, file_name: &str) -> (encoded: Vec<u8>)
        requires
            no_nul(file_name.spec_bytes()),
        ensures
            encoded@ == c_string(file_name.spec_bytes()),
    {
        Utf8::from_rust_to_ffi(file_name)
    }

    /// Reads the engine's answer to the call that ran a file. Whatever the
    /// status is, it is handed on with the exit code.
    pub fn interpret_file(&mut self, status: i32, exit_code: PostscriptExitCode) -> (result:
        InterpreterResult)
        ensures
            result == InterpreterResult(ErrCode(status), exit_code),
            *final(self) == *old(self),
    {
        InterpreterResult::from_reply(status, exit_code)
    }
}

} // verus!

//! A verified model of a safe binding layer around a native
//! page-description-language interpreter.
//!
//! The native engine is reached through a handful of C entry points. Everything
//! that the binding layer decides on its own is gathered here: which engine
//! call comes next while an instance is being built, what a reply means, how a
//! streaming session reacts to a status, how a raster format word decodes, and
//! how the values that cross the boundary are converted. The code that performs
//! the engine calls lives outside this crate and feeds the replies back in.

pub mod builder;
pub mod callback;
pub mod device_list;
pub mod encoding;
pub mod engine;
pub mod error;
pub mod instance;
pub mod interpreter;
pub mod text;

use vstd::prelude::*;

verus! {

/// The integer type of an engine status.
pub type GsErrorType = i32;

/// The integer type of the exit code that the interpreter hands back.
pub type GsPExitCode = i32;

/// The integer type that selects an argument encoding.
pub type GsArgEncoding = u32;

/// The status of a call that went well.
pub const GS_OK: GsErrorType = 0;

} // verus!

//! The engine's raw status codes, by name.

use vstd::prelude::*;

verus! {

pub const OK: i32 = 0;
pub const UNKNOWN_ERROR: i32 = -1;
pub const DICT_FULL: i32 = -2;
pub const DICT_STACK_OVERFLOW: i32 = -3;
pub const DICT_STACK_UNDERFLOW: i32 = -4;
pub const EXEC_STACK_OVERFLOW: i32 = -5;
pub const INTERRUPT: i32 = -6;
pub const INVALID_ACCESS: i32 = -7;
pub const INVALID_EXIT: i32 = -8;
pub const INVALID_FILE_ACCESS: i32 = -9;
pub const INVALID_FONT: i32 = -10;
pub const INVALID_RESTORE: i32 = -11;
pub const IO_ERROR: i32 = -12;
pub const LIMIT_CHECK: i32 = -13;
pub const NO_CURRENT_POINT: i32 = -14;
pub const RANGE_CHECK: i32 = -15;
pub const STACK_OVERFLOW: i32 = -16;
pub const STACK_UNDERFLOW: i32 = -17;
pub const SYNTAX_ERROR: i32 = -18;
pub const TIMEOUT: i32 = -19;
pub const TYPECHECK: i32 = -20;
pub const UNDEFINED: i32 = -21;
pub const UNDEFINED_FILENAME: i32 = -22;
pub const UNDEFINED_RESULT: i32 = -23;
pub const UNMATCHED_MARK: i32 = -24;
pub const VM_ERROR: i32 = -25;
pub const CONFIGURATION_ERROR: i32 = -26;
pub const UNDEFINED_RESOURCE: i32 = -27;
pub const UNREGISTERED: i32 = -28;
pub const INVALID_CONTEXT: i32 = -29;
pub const INVALID_ID: i32 = -30;
pub const HIT_DETECTED: i32 = -99;
pub const FATAL: i32 = -100;
pub const QUIT: i32 = -101;
pub const INTERPRETER_EXIT: i32 = -102;
pub const REMAP_COLOR: i32 = -103;
pub const EXEC_STACK_UNDERFLOW: i32 = -104;
pub const VM_RECLAIM: i32 = -105;
pub const NEED_INPUT: i32 = -106;
pub const INFO: i32 = -110;
pub const HANDLED: i32 = -111;

} // verus!

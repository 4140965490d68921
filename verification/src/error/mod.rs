//! Engine status codes and their symbolic names.

pub mod consts;

use crate::text::{decimal, push_decimal};
use vstd::prelude::*;

verus! {

/// A status that the engine reported, as the raw integer it sent.
///
/// Every integer is a status: one that has no name is still a value of this
/// type, and looking it up is no failure.
#[derive(Copy, Clone, Debug, PartialEq, Eq, Structural, PartialOrd, Ord, Hash)]
pub struct ErrCode(pub i32);

/// The name of a raw status that the engine documents, and `None` for any
/// other integer.
pub open spec fn code_name(raw: i32) -> Option<Seq<char>> {
    if raw == consts::OK {
        Some("OK"@)
    } else if raw == consts::UNKNOWN_ERROR {
        Some("UNKNOWN_ERROR"@)
    } else if raw == consts::DICT_FULL {
        Some("DICT_FULL"@)
    } else if raw == consts::DICT_STACK_OVERFLOW {
        Some("DICT_STACK_OVERFLOW"@)
    } else if raw == consts::DICT_STACK_UNDERFLOW {
        Some("DICT_STACK_UNDERFLOW"@)
    } else if raw == consts::EXEC_STACK_OVERFLOW {
        Some("EXEC_STACK_OVERFLOW"@)
    } else if raw == consts::INTERRUPT {
        Some("INTERRUPT"@)
    } else if raw == consts::INVALID_ACCESS {
        Some("INVALID_ACCESS"@)
    } else if raw == consts::INVALID_EXIT {
        Some("INVALID_EXIT"@)
    } else if raw == consts::INVALID_FILE_ACCESS {
        Some("INVALID_FILE_ACCESS"@)
    } else if raw == consts::INVALID_FONT {
        Some("INVALID_FONT"@)
    } else if raw == consts::INVALID_RESTORE {
        Some("INVALID_RESTORE"@)
    } else if raw == consts::IO_ERROR {
        Some("IO_ERROR"@)
    } else if raw == consts::LIMIT_CHECK {
        Some("LIMIT_CHECK"@)
    } else if raw == consts::NO_CURRENT_POINT {
        Some("NO_CURRENT_POINT"@)
    } else if raw == consts::RANGE_CHECK {
        Some("RANGE_CHECK"@)
    } else if raw == consts::STACK_OVERFLOW {
        Some("STACK_OVERFLOW"@)
    } else if raw == consts::STACK_UNDERFLOW {
        Some("STACK_UNDERFLOW"@)
    } else if raw == consts::SYNTAX_ERROR {
        Some("SYNTAX_ERROR"@)
    } else if raw == consts::TIMEOUT {
        Some("TIMEOUT"@)
    } else if raw == consts::TYPECHECK {
        Some("TYPECHECK"@)
    } else if raw == consts::UNDEFINED {
        Some("UNDEFINED"@)
    } else if raw == consts::UNDEFINED_FILENAME {
        Some("UNDEFINED_FILENAME"@)
    } else if raw == consts::UNDEFINED_RESULT {
        Some("UNDEFINED_RESULT"@)
    } else if raw == consts::UNMATCHED_MARK {
        Some("UNMATCHED_MARK"@)
    } else if raw == consts::VM_ERROR {
        Some("VM_ERROR"@)
    } else if raw == consts::CONFIGURATION_ERROR {
        Some("CONFIGURATION_ERROR"@)
    } else if raw == consts::UNDEFINED_RESOURCE {
        Some("UNDEFINED_RESOURCE"@)
    } else if raw == consts::UNREGISTERED {
        Some("UNREGISTERED"@)
    } else if raw == consts::INVALID_CONTEXT {
        Some("INVALID_CONTEXT"@)
    } else if raw == consts::INVALID_ID {
        Some("INVALID_ID"@)
    } else if raw == consts::HIT_DETECTED {
        Some("HIT_DETECTED"@)
    } else if raw == consts::FATAL {
        Some("FATAL"@)
    } else if raw == consts::QUIT {
        Some("QUIT"@)
    } else if raw == consts::INTERPRETER_EXIT {
        Some("INTERPRETER_EXIT"@)
    } else if raw == consts::REMAP_COLOR {
        Some("REMAP_COLOR"@)
    } else if raw == consts::EXEC_STACK_UNDERFLOW {
        Some("EXEC_STACK_UNDERFLOW"@)
    } else if raw == consts::VM_RECLAIM {
        Some("VM_RECLAIM"@)
    } else if raw == consts::NEED_INPUT {
        Some("NEED_INPUT"@)
    } else if raw == consts::INFO {
        Some("INFO"@)
    } else if raw == consts::HANDLED {
        Some("HANDLED"@)
    } else {
        None
    }
}

/// Whether the engine documents a raw status.
pub open spec fn is_known_code(raw: i32) -> bool {
    code_name(raw) is Some
}

/// The text that stands for a status without a name.
pub open spec fn unrecognized() -> Seq<char> {
    "Unrecognized error code"@
}

/// The name of a raw status, or the marker for one without a name.
pub open spec fn code_description(raw: i32) -> Seq<char> {
    match code_name(raw) {
        Some(name) => name,
        None => unrecognized(),
    }
}

/// The display form of a raw status: its description, a space, and the raw
/// integer in base ten between round brackets.
pub open spec fn code_display(raw: i32) -> Seq<char> {
    code_description(raw) + " ("@ + decimal(raw as int) + ")"@
}

/// What tells the names and the marker apart: the length, the first
/// character and the eleventh, or a space where there is no eleventh.
spec fn mark(name: Seq<char>) -> (nat, char, char) {
    (
        name.len(),
        name[0],
        if name.len() > 10 {
            name[10]
        } else {
            ' '
        },
    )
}

/// The name of a status that the engine documents names no other status: a
/// name leads back to the one status that it was looked up for. The marker
/// for a status without a name is no name of any status.
pub proof fn lemma_names_are_distinct(first: i32, second: i32)
    requires
        is_known_code(first),
    ensures
        code_name(second) == code_name(first) ==> second == first,
        code_name(first) != Some(unrecognized()),
{
    reveal_strlit("OK");
    assert(mark("OK"@) == (2nat, 'O', ' '));
    reveal_strlit("UNKNOWN_ERROR");
    assert(mark("UNKNOWN_ERROR"@) == (13nat, 'U', 'R'));
    reveal_strlit("DICT_FULL");
    assert(mark("DICT_FULL"@) == (9nat, 'D', ' '));
    reveal_strlit("DICT_STACK_OVERFLOW");
    assert(mark("DICT_STACK_OVERFLOW"@) == (19nat, 'D', '_'));
    reveal_strlit("DICT_STACK_UNDERFLOW");
    assert(mark("DICT_STACK_UNDERFLOW"@) == (20nat, 'D', '_'));
    reveal_strlit("EXEC_STACK_OVERFLOW");
    assert(mark("EXEC_STACK_OVERFLOW"@) == (19nat, 'E', '_'));
    reveal_strlit("INTERRUPT");
    assert(mark("INTERRUPT"@) == (9nat, 'I', ' '));
    reveal_strlit("INVALID_ACCESS");
    assert(mark("INVALID_ACCESS"@) == (14nat, 'I', 'C'));
    reveal_strlit("INVALID_EXIT");
    assert(mark("INVALID_EXIT"@) == (12nat, 'I', 'I'));
    reveal_strlit("INVALID_FILE_ACCESS");
    assert(mark("INVALID_FILE_ACCESS"@) == (19nat, 'I', 'L'));
    reveal_strlit("INVALID_FONT");
    assert(mark("INVALID_FONT"@) == (12nat, 'I', 'N'));
    reveal_strlit("INVALID_RESTORE");
    assert(mark("INVALID_RESTORE"@) == (15nat, 'I', 'S'));
    reveal_strlit("IO_ERROR");
    assert(mark("IO_ERROR"@) == (8nat, 'I', ' '));
    reveal_strlit("LIMIT_CHECK");
    assert(mark("LIMIT_CHECK"@) == (11nat, 'L', 'K'));
    reveal_strlit("NO_CURRENT_POINT");
    assert(mark("NO_CURRENT_POINT"@) == (16nat, 'N', '_'));
    reveal_strlit("RANGE_CHECK");
    assert(mark("RANGE_CHECK"@) == (11nat, 'R', 'K'));
    reveal_strlit("STACK_OVERFLOW");
    assert(mark("STACK_OVERFLOW"@) == (14nat, 'S', 'F'));
    reveal_strlit("STACK_UNDERFLOW");
    assert(mark("STACK_UNDERFLOW"@) == (15nat, 'S', 'R'));
    reveal_strlit("SYNTAX_ERROR");
    assert(mark("SYNTAX_ERROR"@) == (12nat, 'S', 'O'));
    reveal_strlit("TIMEOUT");
    assert(mark("TIMEOUT"@) == (7nat, 'T', ' '));
    reveal_strlit("TYPECHECK");
    assert(mark("TYPECHECK"@) == (9nat, 'T', ' '));
    reveal_strlit("UNDEFINED");
    assert(mark("UNDEFINED"@) == (9nat, 'U', ' '));
    reveal_strlit("UNDEFINED_FILENAME");
    assert(mark("UNDEFINED_FILENAME"@) == (18nat, 'U', 'F'));
    reveal_strlit("UNDEFINED_RESULT");
    assert(mark("UNDEFINED_RESULT"@) == (16nat, 'U', 'R'));
    reveal_strlit("UNMATCHED_MARK");
    assert(mark("UNMATCHED_MARK"@) == (14nat, 'U', 'M'));
    reveal_strlit("VM_ERROR");
    assert(mark("VM_ERROR"@) == (8nat, 'V', ' '));
    reveal_strlit("CONFIGURATION_ERROR");
    assert(mark("CONFIGURATION_ERROR"@) == (19nat, 'C', 'I'));
    reveal_strlit("UNDEFINED_RESOURCE");
    assert(mark("UNDEFINED_RESOURCE"@) == (18nat, 'U', 'R'));
    reveal_strlit("UNREGISTERED");
    assert(mark("UNREGISTERED"@) == (12nat, 'U', 'E'));
    reveal_strlit("INVALID_CONTEXT");
    assert(mark("INVALID_CONTEXT"@) == (15nat, 'I', 'N'));
    reveal_strlit("INVALID_ID");
    assert(mark("INVALID_ID"@) == (10nat, 'I', ' '));
    reveal_strlit("HIT_DETECTED");
    assert(mark("HIT_DETECTED"@) == (12nat, 'H', 'E'));
    reveal_strlit("FATAL");
    assert(mark("FATAL"@) == (5nat, 'F', ' '));
    reveal_strlit("QUIT");
    assert(mark("QUIT"@) == (4nat, 'Q', ' '));
    reveal_strlit("INTERPRETER_EXIT");
    assert(mark("INTERPRETER_EXIT"@) == (16nat, 'I', 'R'));
    reveal_strlit("REMAP_COLOR");
    assert(mark("REMAP_COLOR"@) == (11nat, 'R', 'R'));
    reveal_strlit("EXEC_STACK_UNDERFLOW");
    assert(mark("EXEC_STACK_UNDERFLOW"@) == (20nat, 'E', '_'));
    reveal_strlit("VM_RECLAIM");
    assert(mark("VM_RECLAIM"@) == (10nat, 'V', ' '));
    reveal_strlit("NEED_INPUT");
    assert(mark("NEED_INPUT"@) == (10nat, 'N', ' '));
    reveal_strlit("INFO");
    assert(mark("INFO"@) == (4nat, 'I', ' '));
    reveal_strlit("HANDLED");
    assert(mark("HANDLED"@) == (7nat, 'H', ' '));
    reveal_strlit("Unrecognized error code");
    assert(mark("Unrecognized error code"@) == (23nat, 'U', 'e'));
}

impl ErrCode {
    /// The raw integer of this status.
    pub fn raw_err(&self) -> (raw: i32)
        ensures
            raw == self.0,
    {
        self.0
    }

    /// The name of this status, or the marker for one without a name.
    pub fn description(&self) -> (text: &'static str)
        ensures
            text@ == code_description(self.0),
    {
        error_code_to_str_unwrap(*self)
    }

    /// The display form of this status, such as `QUIT (-101)`.
    pub fn to_string(&self) -> (text: String)
        ensures
            text@ == code_display(self.0),
    {
        let mut text = String::from_str(self.description());
        text.append(" (");
        push_decimal(&mut text, self.0);
        text.append(")");
        text
    }
}

impl Default for ErrCode {
    /// The status of a call that went well.
    fn default() -> (code: ErrCode)
        ensures
            code == ErrCode(crate::GS_OK),
    {
        ErrCode(crate::GS_OK)
    }
}

/// The name of a status, or the marker for one without a name. Every status
/// has a description: there is no input on which this fails.
pub fn error_code_to_str_unwrap(e: ErrCode) -> (text: &'static str)
    ensures
        text@ == code_description(e.0),
{
    match error_code_to_str(e) {
        Some(name) => name,
        None => "Unrecognized error code",
    }
}

/// The name of a status: `Some` exactly for the statuses that the engine
/// documents, `None` for every other integer.
pub fn error_code_to_str(e: ErrCode) -> (name: Option<&'static str>)
    ensures
        name is Some <==> is_known_code(e.0),
        name matches Some(text) ==> Some(text@) == code_name(e.0),
{
    let raw: i32 = e.0;
    if raw == consts::OK {
        Some("OK")
    } else if raw == consts::UNKNOWN_ERROR {
        Some("UNKNOWN_ERROR")
    } else if raw == consts::DICT_FULL {
        Some("DICT_FULL")
    } else if raw == consts::DICT_STACK_OVERFLOW {
        Some("DICT_STACK_OVERFLOW")
    } else if raw == consts::DICT_STACK_UNDERFLOW {
        Some("DICT_STACK_UNDERFLOW")
    } else if raw == consts::EXEC_STACK_OVERFLOW {
        Some("EXEC_STACK_OVERFLOW")
    } else if raw == consts::INTERRUPT {
        Some("INTERRUPT")
    } else if raw == consts::INVALID_ACCESS {
        Some("INVALID_ACCESS")
    } else if raw == consts::INVALID_EXIT {
        Some("INVALID_EXIT")
    } else if raw == consts::INVALID_FILE_ACCESS {
        Some("INVALID_FILE_ACCESS")
    } else if raw == consts::INVALID_FONT {
        Some("INVALID_FONT")
    } else if raw == consts::INVALID_RESTORE {
        Some("INVALID_RESTORE")
    } else if raw == consts::IO_ERROR {
        Some("IO_ERROR")
    } else if raw == consts::LIMIT_CHECK {
        Some("LIMIT_CHECK")
    } else if raw == consts::NO_CURRENT_POINT {
        Some("NO_CURRENT_POINT")
    } else if raw == consts::RANGE_CHECK {
        Some("RANGE_CHECK")
    } else if raw == consts::STACK_OVERFLOW {
        Some("STACK_OVERFLOW")
    } else if raw == consts::STACK_UNDERFLOW {
        Some("STACK_UNDERFLOW")
    } else if raw == consts::SYNTAX_ERROR {
        Some("SYNTAX_ERROR")
    } else if raw == consts::TIMEOUT {
        Some("TIMEOUT")
    } else if raw == consts::TYPECHECK {
        Some("TYPECHECK")
    } else if raw == consts::UNDEFINED {
        Some("UNDEFINED")
    } else if raw == consts::UNDEFINED_FILENAME {
        Some("UNDEFINED_FILENAME")
    } else if raw == consts::UNDEFINED_RESULT {
        Some("UNDEFINED_RESULT")
    } else if raw == consts::UNMATCHED_MARK {
        Some("UNMATCHED_MARK")
    } else if raw == consts::VM_ERROR {
        Some("VM_ERROR")
    } else if raw == consts::CONFIGURATION_ERROR {
        Some("CONFIGURATION_ERROR")
    } else if raw == consts::UNDEFINED_RESOURCE {
        Some("UNDEFINED_RESOURCE")
    } else if raw == consts::UNREGISTERED {
        Some("UNREGISTERED")
    } else if raw == consts::INVALID_CONTEXT {
        Some("INVALID_CONTEXT")
    } else if raw == consts::INVALID_ID {
        Some("INVALID_ID")
    } else if raw == consts::HIT_DETECTED {
        Some("HIT_DETECTED")
    } else if raw == consts::FATAL {
        Some("FATAL")
    } else if raw == consts::QUIT {
        Some("QUIT")
    } else if raw == consts::INTERPRETER_EXIT {
        Some("INTERPRETER_EXIT")
    } else if raw == consts::REMAP_COLOR {
        Some("REMAP_COLOR")
    } else if raw == consts::EXEC_STACK_UNDERFLOW {
        Some("EXEC_STACK_UNDERFLOW")
    } else if raw == consts::VM_RECLAIM {
        Some("VM_RECLAIM")
    } else if raw == consts::NEED_INPUT {
        Some("NEED_INPUT")
    } else if raw == consts::INFO {
        Some("INFO")
    } else if raw == consts::HANDLED {
        Some("HANDLED")
    } else {
        None
    }
}

} // verus!

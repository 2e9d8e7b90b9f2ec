//! The diagnostic channel: what goes to the host's console, and at which
//! level.

use vstd::prelude::*;
use crate::atom::MarshalError;
use vstd::string::{is_ascii, is_ascii_spec_bytes, StringSliceAdditionalSpecFns};
use crate::symbol::{contains_nul, copy_bytes, has_nul};

verus! {

/// The level at which a line is shown.
#[derive(Clone, Copy, Debug, PartialEq, Eq, Structural)]
pub enum Level {
    Post,
    Error,
}

/// One line for the host's console.
#[derive(Clone, Debug)]
pub struct ConsoleLine {
    pub level: Level,
    pub text: Vec<u8>,
}

/// The text shown in place of a message that the host cannot carry.
pub open spec fn fallback_text() -> Seq<u8> {
    "failed to create CString".spec_bytes()
}

/// The fallback text holds no zero byte.
pub proof fn fallback_is_clean()
    ensures
        !has_nul(fallback_text()),
{
    reveal_strlit("failed to create CString");
    assert(is_ascii("failed to create CString"));
    is_ascii_spec_bytes("failed to create CString");
}

/// The fallback text as bytes.
pub fn fallback() -> (v: Vec<u8>)
    ensures
        v@ == fallback_text(),
{
    copy_bytes("failed to create CString".as_bytes())
}

/// The line that a message becomes: the message itself at the `Post` level,
/// or, where it holds a zero byte, the fallback text at the `Error` level.
pub fn post(msg: Vec<u8>) -> (line: ConsoleLine)
    ensures
        !has_nul(line.text@),
        has_nul(msg@) ==> line.level == Level::Error && line.text@ == fallback_text(),
        !has_nul(msg@) ==> line.level == Level::Post && line.text@ == msg@,
{
    if contains_nul(msg.as_slice()) {
        self::error(fallback())
    } else {
        ConsoleLine { level: Level::Post, text: msg }
    }
}

/// The line that an error message becomes: always at the `Error` level, the
/// message itself or, where it holds a zero byte, the fallback text.
pub fn error(msg: Vec<u8>) -> (line: ConsoleLine)
    ensures
        !has_nul(line.text@),
        line.level == Level::Error,
        has_nul(msg@) ==> line.text@ == fallback_text(),
        !has_nul(msg@) ==> line.text@ == msg@,
{
    proof {
        fallback_is_clean();
    }
    if contains_nul(msg.as_slice()) {
        ConsoleLine { level: Level::Error, text: fallback() }
    } else {
        ConsoleLine { level: Level::Error, text: msg }
    }
}

/// The text that reports a marshalling failure.
pub open spec fn failure_text(e: MarshalError) -> Seq<u8> {
    match e {
        MarshalError::TypeMismatch => "type mismatch".spec_bytes(),
        MarshalError::ArityMismatch => "arity mismatch".spec_bytes(),
        MarshalError::InternFailure => "failed to intern symbol".spec_bytes(),
    }
}

/// The one line that reports a marshalling failure, at the `Error` level.
pub fn report(e: MarshalError) -> (line: ConsoleLine)
    ensures
        line.level == Level::Error,
        line.text@ == failure_text(e),
{
    let text = match e {
        MarshalError::TypeMismatch => copy_bytes("type mismatch".as_bytes()),
        MarshalError::ArityMismatch => copy_bytes("arity mismatch".as_bytes()),
        MarshalError::InternFailure => copy_bytes("failed to intern symbol".as_bytes()),
    };
    ConsoleLine { level: Level::Error, text }
}

} // verus!

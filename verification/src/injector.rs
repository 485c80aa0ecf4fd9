//! Decides the outcome of submitting literal text as synthetic keystrokes.
//!
//! The OS input-injection call itself happens outside the library; what the
//! library decides is when that call must be made at all and how its report
//! maps to the caller's result. Empty text succeeds without any keystrokes.
//! A non-empty injection either fully succeeds or fails; partial injection is
//! reported as failure, without rollback.

use vstd::prelude::*;

verus! {

/// Why a text injection failed.
#[derive(Clone, Copy, PartialEq, Eq, Structural, Debug)]
pub enum InjectionError {
    /// A character of the text has no OS-specific key mapping.
    UnsupportedCharacter,
    /// The OS input-injection subsystem could not be initialised or used.
    PlatformFailure,
}

/// What the OS input-injection path reported for an attempt.
#[derive(Clone, Copy, PartialEq, Eq, Structural, Debug)]
pub enum OsSendReport {
    /// Every keystroke was delivered.
    Sent,
    /// A character could not be mapped to keystrokes.
    CharacterNotMapped,
    /// The injection subsystem failed outright.
    SubsystemFailed,
}

/// The result owed for injecting `text` when the OS path reported `report`:
/// empty text succeeds whatever the OS would have said, since no keystroke
/// is ever attempted for it.
pub open spec fn injection_outcome(text: Seq<char>, report: OsSendReport) -> Result<
    (),
    InjectionError,
> {
    if text.len() == 0 {
        Ok(())
    } else {
        match report {
            OsSendReport::Sent => Ok(()),
            OsSendReport::CharacterNotMapped => Err(InjectionError::UnsupportedCharacter),
            OsSendReport::SubsystemFailed => Err(InjectionError::PlatformFailure),
        }
    }
}

/// Whether injecting `text` requires touching the OS at all.
pub fn needs_keystrokes(text: &str) -> (b: bool)
    ensures
        b == (text@.len() != 0),
{
    !text.is_empty()
}

/// Maps `text` and the report of the OS injection attempt to the caller's
/// result. For empty text the report is ignored: injection succeeds with no
/// observable keystrokes.
pub fn inject(text: &str, report: OsSendReport) -> (r: Result<(), InjectionError>)
    ensures
        r == injection_outcome(text@, report),
{
    if text.is_empty() {
        return Ok(());
    }
    match report {
        OsSendReport::Sent => Ok(()),
        OsSendReport::CharacterNotMapped => Err(InjectionError::UnsupportedCharacter),
        OsSendReport::SubsystemFailed => Err(InjectionError::PlatformFailure),
    }
}

/// The human-readable description of an injection failure, as handed back
/// across the command boundary.
pub open spec fn error_message_spec(e: InjectionError) -> Seq<char> {
    match e {
        InjectionError::UnsupportedCharacter => "a character in the text cannot be typed on this platform"@,
        InjectionError::PlatformFailure => "the OS input-injection subsystem is unavailable"@,
    }
}

/// Describes an injection failure for the command boundary.
pub fn error_message(e: InjectionError) -> (msg: &'static str)
    ensures
        msg@ == error_message_spec(e),
{
    match e {
        InjectionError::UnsupportedCharacter => "a character in the text cannot be typed on this platform",
        InjectionError::PlatformFailure => "the OS input-injection subsystem is unavailable",
    }
}

} // verus!

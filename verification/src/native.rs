//! Integer constants of the native engine's call boundary.
//!
//! The engine speaks in plain integers: a status after every call, a tag on
//! every message it sends to a scan callback, a code that the callback sends
//! back, and a level on every compiler diagnostic. The values below are the
//! ones the engine's headers fix; the rest of the library never writes such a
//! number itself.

use vstd::prelude::*;

verus! {

/// Status that every native entry point returns when it has done its work.
pub const ERROR_SUCCESS: i32 = 0;

/// Status of a scan that ran out of its time budget.
pub const ERROR_SCAN_TIMEOUT: i32 = 26;

/// Status of a scan that stopped because its callback reported an error.
pub const ERROR_CALLBACK_ERROR: i32 = 28;

/// Tag of the callback message that announces a rule whose condition held.
pub const CALLBACK_MSG_RULE_MATCHING: i32 = 1;

/// Callback reply asking the engine to go on scanning.
pub const CALLBACK_CONTINUE: i32 = 0;

/// Callback reply asking the engine to stop without an error.
pub const CALLBACK_ABORT: i32 = 1;

/// Callback reply asking the engine to stop and report a callback error.
pub const CALLBACK_ERROR: i32 = 2;

/// Level of a compiler diagnostic that rejects the source.
pub const YARA_ERROR_LEVEL_ERROR: i32 = 0;

/// Level of a compiler diagnostic that only warns.
pub const YARA_ERROR_LEVEL_WARNING: i32 = 1;

/// What a scan callback tells the engine to do next.
#[derive(Clone, Copy, Debug, PartialEq, Eq, Structural)]
pub enum CallbackResult {
    /// Go on with the scan.
    Continue,
    /// Stop the scan; nothing went wrong.
    Abort,
    /// Stop the scan; the message could not be taken in.
    Error,
}

impl CallbackResult {
    /// The integer the engine expects for this reply.
    pub open spec fn spec_code(self) -> i32 {
        match self {
            CallbackResult::Continue => CALLBACK_CONTINUE,
            CallbackResult::Abort => CALLBACK_ABORT,
            CallbackResult::Error => CALLBACK_ERROR,
        }
    }

    /// The integer to return from the native callback.
    #[verifier::when_used_as_spec(spec_code)]
    pub fn code(self) -> (code: i32)
        ensures
            code == self.spec_code(),
    {
        match self {
            CallbackResult::Continue => CALLBACK_CONTINUE,
            CallbackResult::Abort => CALLBACK_ABORT,
            CallbackResult::Error => CALLBACK_ERROR,
        }
    }
}

} // verus!

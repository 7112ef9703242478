//! The errors of the library, and the native status codes and levels they
//! stand for.
//!
//! No function of the library hands a bare status code to its caller: a code
//! that is not success becomes one of the kinds below at the call that
//! received it, and is kept inside that kind where the kind has room for a
//! cause.

use vstd::prelude::*;
use crate::native::{ERROR_SCAN_TIMEOUT, ERROR_SUCCESS, YARA_ERROR_LEVEL_WARNING};

verus! {

/// How serious a compiler diagnostic is.
#[derive(Clone, Copy, Debug, PartialEq, Eq, Structural)]
pub enum Severity {
    /// The source was rejected.
    Error,
    /// The source was accepted with a remark.
    Warning,
}

impl Severity {
    /// The severity that a native diagnostic level stands for: the warning
    /// level is a warning, every other level counts as an error.
    pub open spec fn of_level(level: i32) -> Severity {
        if level == YARA_ERROR_LEVEL_WARNING {
            Severity::Warning
        } else {
            Severity::Error
        }
    }

    /// The severity that a native diagnostic level stands for.
    pub fn from_level(level: i32) -> (severity: Severity)
        ensures
            severity == Severity::of_level(level),
    {
        if level == YARA_ERROR_LEVEL_WARNING {
            Severity::Warning
        } else {
            Severity::Error
        }
    }
}

/// One remark of the native compiler about a fragment of rule source.
#[derive(Debug, PartialEq, Eq)]
pub struct Diagnostic {
    /// Line of the fragment that the remark is about.
    pub line: i32,
    /// Whether the remark rejects the fragment.
    pub severity: Severity,
    /// The compiler's own words.
    pub message: String,
}

impl Clone for Diagnostic {
    fn clone(&self) -> (copy: Diagnostic)
        ensures
            copy == *self,
    {
        Diagnostic { line: self.line, severity: self.severity, message: self.message.clone() }
    }
}

impl Diagnostic {
    /// Takes a diagnostic out of the compiler callback's arguments. The
    /// message is copied, so the result does not point into native memory.
    pub fn from_native(level: i32, line: i32, message: &str) -> (diagnostic: Diagnostic)
        ensures
            diagnostic.line == line,
            diagnostic.severity == Severity::of_level(level),
            diagnostic.message@ == message@,
    {
        Diagnostic { line, severity: Severity::from_level(level), message: message.to_owned() }
    }
}

/// Whether some diagnostic in `diagnostics` has error severity.
pub open spec fn has_error(diagnostics: Seq<Diagnostic>) -> bool {
    exists|i: int| 0 <= i < diagnostics.len() && (#[trigger] diagnostics[i]).severity == Severity::Error
}

/// Decides whether a list of diagnostics rejects the fragment it is about.
pub fn any_error(diagnostics: &Vec<Diagnostic>) -> (found: bool)
    ensures
        found == has_error(diagnostics@),
{
    let mut i: usize = 0;
    while i < diagnostics.len()
        invariant
            i <= diagnostics.len(),
            forall|j: int| 0 <= j < i ==> (#[trigger] diagnostics@[j]).severity != Severity::Error,
        decreases diagnostics.len() - i,
    {
        if diagnostics[i].severity == Severity::Error {
            return true;
        }
        i += 1;
    }
    false
}

/// Copies a list of diagnostics.
pub fn copy_diagnostics(diagnostics: &Vec<Diagnostic>) -> (copy: Vec<Diagnostic>)
    ensures
        copy@ == diagnostics@,
{
    let mut copy: Vec<Diagnostic> = Vec::new();
    let mut i: usize = 0;
    while i < diagnostics.len()
        invariant
            i <= diagnostics.len(),
            copy@ == diagnostics@.take(i as int),
        decreases diagnostics.len() - i,
    {
        copy.push(diagnostics[i].clone());
        assert(diagnostics@.take(i + 1) == diagnostics@.take(i as int).push(diagnostics@[i as int]));
        i += 1;
    }
    assert(diagnostics@.take(i as int) == diagnostics@);
    copy
}

/// Why the engine could not be acquired, released or asked for an object.
#[derive(Clone, Copy, Debug, PartialEq, Eq)]
pub enum YaraError {
    /// The native initializer did not succeed; no handle was given out.
    InitializationFailed,
    /// The engine could not create a compiler.
    CompilerCreationFailed,
    /// A precompiled rule set could not be loaded.
    RuleSetLoadFailed {
        /// The status the engine gave.
        cause: i32,
    },
    /// The native finalizer did not succeed. The engine must not be used again
    /// in this process.
    FatalFinalizationFailure,
}

/// Why rule source did not become a rule set.
#[derive(Debug, PartialEq, Eq)]
pub enum CompileError {
    /// The compiler rejected a fragment. All diagnostics of that fragment are
    /// here, warnings too, in the order in which the compiler raised them.
    Compilation {
        /// What the compiler said.
        diagnostics: Vec<Diagnostic>,
    },
    /// The session was finished before any fragment had been accepted.
    EmptyRuleSet,
    /// The native build step did not succeed.
    BuildFailed {
        /// The status the engine gave.
        cause: i32,
    },
    /// The file holding the source could not be opened.
    Io {
        /// The operating system's error number, where there is one.
        os_error: Option<i32>,
    },
}

/// Why a scan gave no outcome.
#[derive(Clone, Copy, Debug, PartialEq, Eq)]
pub enum ScanError {
    /// The file to scan could not be opened.
    Io {
        /// The operating system's error number, where there is one.
        os_error: Option<i32>,
    },
    /// The scan ran out of its time budget. It cannot be resumed.
    Timeout,
    /// The engine stopped the scan for another reason.
    Engine {
        /// The status the engine gave.
        cause: i32,
    },
}

impl ScanError {
    /// The error that a scan's final status stands for, if any: none for
    /// success, `Timeout` for the timeout status, `Engine` with the status as
    /// its cause for every other one.
    pub open spec fn of_status(status: i32) -> Option<ScanError> {
        if status == ERROR_SUCCESS {
            None
        } else if status == ERROR_SCAN_TIMEOUT {
            Some(ScanError::Timeout)
        } else {
            Some(ScanError::Engine { cause: status })
        }
    }

    /// The error that the status of a native scan stands for, if any.
    pub fn from_status(status: i32) -> (error: Option<ScanError>)
        ensures
            error == ScanError::of_status(status),
    {
        if status == ERROR_SUCCESS {
            None
        } else if status == ERROR_SCAN_TIMEOUT {
            Some(ScanError::Timeout)
        } else {
            Some(ScanError::Engine { cause: status })
        }
    }
}

} // verus!

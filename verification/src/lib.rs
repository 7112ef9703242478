//! Lifecycle and result marshalling for a native pattern-scanning engine.
//!
//! The engine itself compiles rules and scans content; it is reached by
//! native calls that this library does not make. What the library holds is
//! everything around those calls: the count that decides when the engine is
//! initialized and finalized, the state of a compiler session, the meaning of
//! every status the engine returns, and the copying of what a scan reports
//! into owned records. Each function takes what a native call returned and
//! says what follows from it.

use vstd::prelude::*;

pub mod compiler;
pub mod engine;
pub mod errors;
pub mod matches;
pub mod native;
pub mod rules;
pub mod string;

pub use compiler::{Compiler, Fragment};
pub use engine::Engine;
pub use errors::{CompileError, Diagnostic, ScanError, Severity, YaraError};
pub use matches::Match;
pub use rules::{Rule, Rules, Scan};
pub use string::YrString;

use compiler::CompilerView;
use engine::{grants, live_after, EngineOp};
use native::ERROR_SUCCESS;

verus! {

/// A handle on the initialized engine.
///
/// While a handle is out the engine is initialized. Compiler sessions and
/// rule sets borrow the handle they were made under, so none of them
/// outlives it.
pub struct Yara {
    _secret: (),
}

impl Yara {
    /// Gives out a handle and counts it in `engine`.
    ///
    /// With no handle out the native initializer has to run first, and
    /// `init_status` is what it returned: the handle is given out only if
    /// that is success, and a failure leaves the count as it was. With a
    /// handle out already, the initializer is not run and `init_status` is
    /// not looked at.
    pub fn create(engine: &mut Engine, init_status: i32) -> (handle: Result<Yara, YaraError>)
        requires
            old(engine).live() < u64::MAX,
        ensures
            handle is Ok <==> grants(old(engine).live(), EngineOp::Acquire { init_status }),
            handle matches Err(error) ==> error == YaraError::InitializationFailed,
            final(engine).live() == live_after(old(engine).live(), EngineOp::Acquire { init_status }),
    {
        if engine.enter(init_status) {
            Ok(Yara { _secret: () })
        } else {
            Err(YaraError::InitializationFailed)
        }
    }

    /// Opens a compiler session on the native compiler `handle`, which the
    /// engine created with `status`.
    pub fn new_compiler<'a>(&'a mut self, status: i32, handle: usize) -> (session: Result<Compiler<'a>, YaraError>)
        ensures
            match session {
                Ok(compiler) => status == ERROR_SUCCESS && compiler@ == CompilerView::fresh(handle),
                Err(error) => status != ERROR_SUCCESS && error == YaraError::CompilerCreationFailed,
            },
    {
        if status == ERROR_SUCCESS {
            Ok(Compiler::new(handle))
        } else {
            Err(YaraError::CompilerCreationFailed)
        }
    }

    /// Takes over the rule set `handle`, which the engine loaded from a file
    /// with `status`.
    pub fn load_rules<'a>(&'a mut self, status: i32, handle: usize) -> (loaded: Result<Rules<'a>, YaraError>)
        ensures
            match loaded {
                Ok(rules) => status == ERROR_SUCCESS && rules.handle() == handle,
                Err(error) => status != ERROR_SUCCESS && error == (YaraError::RuleSetLoadFailed { cause: status }),
            },
    {
        if status == ERROR_SUCCESS {
            Ok(Rules::new(handle))
        } else {
            Err(YaraError::RuleSetLoadFailed { cause: status })
        }
    }
}

} // verus!

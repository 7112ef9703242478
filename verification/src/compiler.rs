//! Compiler sessions: the state around the native compiler.
//!
//! A session takes in fragments of rule source one by one, each under a
//! namespace of its own or under the default one, and is finished once. The
//! native compiler parses each fragment and raises diagnostics; the session
//! decides from them whether the fragment was accepted.
//!
//! A rejected fragment poisons the session. The native compiler cannot be
//! used after it has found an error, so from then on the session accepts
//! nothing and cannot be finished: every later call fails with the
//! diagnostics of the rejected fragment, and the native compiler is not to
//! be called again.
//!
//! A session that is finished before it has accepted a fragment fails with
//! `EmptyRuleSet`; the native build step is not run for it.

use std::marker::PhantomData;
use vstd::prelude::*;
use crate::errors::{any_error, copy_diagnostics, has_error, CompileError, Diagnostic};
use crate::native::ERROR_SUCCESS;
use crate::rules::Rules;
use crate::Yara;

verus! {

/// What a `CompileError` holds.
pub enum CompileErrorView {
    Compilation { diagnostics: Seq<Diagnostic> },
    EmptyRuleSet,
    BuildFailed { cause: i32 },
    Io { os_error: Option<i32> },
}

impl View for CompileError {
    type V = CompileErrorView;

    open spec fn view(&self) -> CompileErrorView {
        match *self {
            CompileError::Compilation { diagnostics } => CompileErrorView::Compilation { diagnostics: diagnostics@ },
            CompileError::EmptyRuleSet => CompileErrorView::EmptyRuleSet,
            CompileError::BuildFailed { cause } => CompileErrorView::BuildFailed { cause },
            CompileError::Io { os_error } => CompileErrorView::Io { os_error },
        }
    }
}

impl Clone for CompileError {
    fn clone(&self) -> (copy: CompileError)
        ensures
            copy@ == self@,
    {
        match self {
            CompileError::Compilation { diagnostics } => CompileError::Compilation {
                diagnostics: copy_diagnostics(diagnostics),
            },
            CompileError::EmptyRuleSet => CompileError::EmptyRuleSet,
            CompileError::BuildFailed { cause } => CompileError::BuildFailed { cause: *cause },
            CompileError::Io { os_error } => CompileError::Io { os_error: *os_error },
        }
    }
}

/// Whether `added`, the result of a call, is what `expected` says: success
/// where it says success, and an error that holds what it says otherwise.
pub open spec fn reports(added: Result<(), CompileError>, expected: Result<(), CompileErrorView>) -> bool {
    match added {
        Ok(()) => expected is Ok,
        Err(error) => expected == Err::<(), CompileErrorView>(error@),
    }
}

/// A fragment of rule source that a session has accepted.
#[derive(Debug, PartialEq, Eq)]
pub struct Fragment {
    /// The namespace the fragment was compiled under; `None` is the default
    /// namespace.
    pub namespace: Option<String>,
    /// What the compiler remarked on the fragment. None of it is an error.
    pub warnings: Vec<Diagnostic>,
}

/// What a `Fragment` holds.
pub struct FragmentView {
    pub namespace: Option<Seq<char>>,
    pub warnings: Seq<Diagnostic>,
}

impl View for Fragment {
    type V = FragmentView;

    open spec fn view(&self) -> FragmentView {
        FragmentView {
            namespace: match self.namespace {
                Some(name) => Some(name@),
                None => None,
            },
            warnings: self.warnings@,
        }
    }
}

/// What a `Compiler` holds.
pub struct CompilerView {
    /// Handle of the native compiler.
    pub handle: usize,
    /// The accepted fragments, in the order in which they were added.
    pub accepted: Seq<FragmentView>,
    /// The diagnostics of the fragment that poisoned the session, if one did.
    pub rejected: Option<Seq<Diagnostic>>,
}

impl CompilerView {
    /// A session that has not yet taken in a fragment.
    pub open spec fn fresh(handle: usize) -> CompilerView {
        CompilerView { handle, accepted: Seq::empty(), rejected: None }
    }

    /// Whether a fragment may be handed to the native compiler.
    pub open spec fn accepts_rules(self) -> bool {
        self.rejected is None
    }

    /// Whether the native build step may run: the session is not poisoned
    /// and has accepted a fragment.
    pub open spec fn is_ready(self) -> bool {
        self.rejected is None && self.accepted.len() > 0
    }

    /// The session after a fragment under `namespace` on which the native
    /// compiler raised `diagnostics`. A poisoned session stays as it is.
    /// Diagnostics with an error among them poison the session; others are
    /// kept as the warnings of one more accepted fragment.
    pub open spec fn add(self, namespace: Option<Seq<char>>, diagnostics: Seq<Diagnostic>) -> CompilerView {
        if self.rejected is Some {
            self
        } else if has_error(diagnostics) {
            CompilerView { rejected: Some(diagnostics), ..self }
        } else {
            CompilerView {
                accepted: self.accepted.push(FragmentView { namespace, warnings: diagnostics }),
                ..self
            }
        }
    }

    /// What adding that fragment reports: the diagnostics that poisoned the
    /// session if it is or becomes poisoned, and success otherwise.
    pub open spec fn add_result(self, diagnostics: Seq<Diagnostic>) -> Result<(), CompileErrorView> {
        match self.rejected {
            Some(rejected) => Err(CompileErrorView::Compilation { diagnostics: rejected }),
            None => if has_error(diagnostics) {
                Err(CompileErrorView::Compilation { diagnostics })
            } else {
                Ok(())
            },
        }
    }

    /// The session after a fragment that was to be read from a file. `read`
    /// holds the diagnostics raised on the file, or the error number where
    /// it could not be opened; a file that could not be opened changes
    /// nothing.
    pub open spec fn add_file(
        self,
        namespace: Option<Seq<char>>,
        read: Result<Seq<Diagnostic>, Option<i32>>,
    ) -> CompilerView {
        match read {
            Ok(diagnostics) => self.add(namespace, diagnostics),
            Err(_) => self,
        }
    }

    /// What adding that fragment reports: an I/O error where the file could
    /// not be opened, and what [`add_result`](CompilerView::add_result) says
    /// otherwise.
    pub open spec fn add_file_result(self, read: Result<Seq<Diagnostic>, Option<i32>>) -> Result<
        (),
        CompileErrorView,
    > {
        match read {
            Ok(diagnostics) => self.add_result(diagnostics),
            Err(os_error) => Err(CompileErrorView::Io { os_error }),
        }
    }

    /// What finishing the session gives, where the native build step returns
    /// `status` and the rule set `rules`: the handle of the rule set, or the
    /// reason why there is none. A poisoned session fails with its
    /// diagnostics and one without a fragment with `EmptyRuleSet`, whatever
    /// `status` is; a ready one fails only if the build step did.
    pub open spec fn build(self, status: i32, rules: usize) -> Result<usize, CompileErrorView> {
        if let Some(rejected) = self.rejected {
            Err(CompileErrorView::Compilation { diagnostics: rejected })
        } else if self.accepted.len() == 0 {
            Err(CompileErrorView::EmptyRuleSet)
        } else if status != ERROR_SUCCESS {
            Err(CompileErrorView::BuildFailed { cause: status })
        } else {
            Ok(rules)
        }
    }

    /// The session after the fragments `fragments`, in order; each is a
    /// namespace and the diagnostics raised on the fragment.
    pub open spec fn add_all(self, fragments: Seq<(Option<Seq<char>>, Seq<Diagnostic>)>) -> CompilerView
        decreases fragments.len(),
    {
        if fragments.len() == 0 {
            self
        } else {
            self.add_all(fragments.drop_last()).add(fragments.last().0, fragments.last().1)
        }
    }
}

/// Finishing a session that has taken in no fragment gives `EmptyRuleSet`,
/// whatever the native build step would return.
pub proof fn lemma_empty_session_builds_nothing(handle: usize, status: i32, rules: usize)
    ensures
        CompilerView::fresh(handle).build(status, rules) == Err::<usize, CompileErrorView>(
            CompileErrorView::EmptyRuleSet,
        ),
{
}

/// A session is ready exactly when finishing it depends on the native build
/// step alone: a ready session yields the rule set if the step succeeds and
/// its status if it fails, and a session that is not ready fails whatever
/// the step returns.
pub proof fn lemma_ready_session_builds(session: CompilerView, status: i32, rules: usize)
    ensures
        session.is_ready() && status == ERROR_SUCCESS ==> session.build(status, rules) == Ok::<
            usize,
            CompileErrorView,
        >(rules),
        session.is_ready() && status != ERROR_SUCCESS ==> session.build(status, rules) == Err::<
            usize,
            CompileErrorView,
        >(CompileErrorView::BuildFailed { cause: status }),
        !session.is_ready() ==> session.build(status, rules) is Err,
{
}

/// A poisoned session stays poisoned: whatever fragments follow, each is
/// refused with the diagnostics that poisoned the session, and so is the
/// attempt to finish it.
pub proof fn lemma_poisoned_session_stays_poisoned(
    session: CompilerView,
    fragments: Seq<(Option<Seq<char>>, Seq<Diagnostic>)>,
    next: Seq<Diagnostic>,
    status: i32,
    rules: usize,
)
    requires
        session.rejected is Some,
    ensures
        session.add_all(fragments) == session,
        session.add_all(fragments).add_result(next) == Err::<(), CompileErrorView>(
            CompileErrorView::Compilation { diagnostics: session.rejected->Some_0 },
        ),
        session.add_all(fragments).build(status, rules) == Err::<usize, CompileErrorView>(
            CompileErrorView::Compilation { diagnostics: session.rejected->Some_0 },
        ),
    decreases fragments.len(),
{
    if fragments.len() > 0 {
        lemma_poisoned_session_stays_poisoned(session, fragments.drop_last(), next, status, rules);
    }
}

/// A compiler session under an engine handle.
pub struct Compiler<'a> {
    owner: PhantomData<&'a mut Yara>,
    handle: usize,
    accepted: Vec<Fragment>,
    rejected: Option<Vec<Diagnostic>>,
}

impl<'a> View for Compiler<'a> {
    type V = CompilerView;

    closed spec fn view(&self) -> CompilerView {
        CompilerView {
            handle: self.handle,
            accepted: self.accepted@.map_values(|fragment: Fragment| fragment@),
            rejected: match self.rejected {
                Some(diagnostics) => Some(diagnostics@),
                None => None,
            },
        }
    }
}

impl<'a> Compiler<'a> {
    pub(crate) fn new(handle: usize) -> (session: Compiler<'a>)
        ensures
            session@ == CompilerView::fresh(handle),
    {
        let session = Compiler { owner: PhantomData, handle, accepted: Vec::new(), rejected: None };
        assert(session@.accepted =~= Seq::empty());
        session
    }

    /// The native handle of the compiler.
    pub fn handle(&self) -> (handle: usize)
        ensures
            handle == self@.handle,
    {
        self.handle
    }

    /// Whether a fragment may be handed to the native compiler. Where this is
    /// false the native compiler must not be called.
    pub fn accepts_rules(&self) -> (open: bool)
        ensures
            open == self@.accepts_rules(),
    {
        self.rejected.is_none()
    }

    /// Whether the native build step may run. Where this is false it must
    /// not be called.
    pub fn is_ready(&self) -> (ready: bool)
        ensures
            ready == self@.is_ready(),
    {
        self.rejected.is_none() && self.accepted.len() > 0
    }

    /// The accepted fragments with their warnings, in the order in which
    /// they were added.
    pub fn fragments(&self) -> (fragments: &Vec<Fragment>)
        ensures
            fragments@.map_values(|fragment: Fragment| fragment@) == self@.accepted,
    {
        &self.accepted
    }

    fn add(&mut self, namespace: Option<String>, diagnostics: Vec<Diagnostic>) -> (added: Result<
        (),
        CompileError,
    >)
        ensures
            final(self)@ == old(self)@.add(
                match namespace {
                    Some(name) => Some(name@),
                    None => None,
                },
                diagnostics@,
            ),
            reports(added, old(self)@.add_result(diagnostics@)),
    {
        match &self.rejected {
            Some(rejected) => {
                return Err(CompileError::Compilation { diagnostics: copy_diagnostics(rejected) });
            },
            None => {},
        }
        if any_error(&diagnostics) {
            self.rejected = Some(copy_diagnostics(&diagnostics));
            Err(CompileError::Compilation { diagnostics })
        } else {
            let fragment = Fragment { namespace, warnings: diagnostics };
            proof {
                self.accepted@.lemma_push_map_commute(|fragment: Fragment| fragment@, fragment);
            }
            self.accepted.push(fragment);
            Ok(())
        }
    }

    /// Records a fragment of rule source under the default namespace, on
    /// which the native compiler raised `diagnostics`.
    ///
    /// The fragment is accepted if no diagnostic is an error; the
    /// diagnostics are then kept as its warnings. Otherwise the call fails
    /// with all of them and the session is poisoned. On a session that is
    /// poisoned already the call fails with the diagnostics that poisoned
    /// it, and `diagnostics` is not looked at.
    pub fn add_rules_str(&mut self, diagnostics: Vec<Diagnostic>) -> (added: Result<(), CompileError>)
        ensures
            final(self)@ == old(self)@.add(None, diagnostics@),
            reports(added, old(self)@.add_result(diagnostics@)),
    {
        self.add(None, diagnostics)
    }

    /// Records a fragment of rule source under `namespace`, on which the
    /// native compiler raised `diagnostics`. Apart from the namespace the
    /// call does what [`add_rules_str`](Compiler::add_rules_str) does.
    pub fn add_rules_str_with_namespace(&mut self, namespace: &str, diagnostics: Vec<Diagnostic>) -> (added:
        Result<(), CompileError>)
        ensures
            final(self)@ == old(self)@.add(Some(namespace@), diagnostics@),
            reports(added, old(self)@.add_result(diagnostics@)),
    {
        self.add(Some(namespace.to_owned()), diagnostics)
    }

    /// Records a fragment of rule source under the default namespace that
    /// was to be read from a file.
    ///
    /// `read` holds the diagnostics that the native compiler raised on the
    /// file, or the operating system's error number where the file could not
    /// be opened. A file that could not be opened fails the call and leaves
    /// the session as it was; otherwise the call does what
    /// [`add_rules_str`](Compiler::add_rules_str) does.
    pub fn add_rules_file(&mut self, read: Result<Vec<Diagnostic>, Option<i32>>) -> (added: Result<
        (),
        CompileError,
    >)
        ensures
            final(self)@ == old(self)@.add_file(None, read_view(read)),
            reports(added, old(self)@.add_file_result(read_view(read))),
    {
        match read {
            Ok(diagnostics) => self.add(None, diagnostics),
            Err(os_error) => Err(CompileError::Io { os_error }),
        }
    }

    /// Records a fragment of rule source under `namespace` that was to be
    /// read from a file. Apart from the namespace the call does what
    /// [`add_rules_file`](Compiler::add_rules_file) does.
    pub fn add_rules_file_with_namespace(
        &mut self,
        namespace: &str,
        read: Result<Vec<Diagnostic>, Option<i32>>,
    ) -> (added: Result<(), CompileError>)
        ensures
            final(self)@ == old(self)@.add_file(Some(namespace@), read_view(read)),
            reports(added, old(self)@.add_file_result(read_view(read))),
    {
        match read {
            Ok(diagnostics) => self.add(Some(namespace.to_owned()), diagnostics),
            Err(os_error) => Err(CompileError::Io { os_error }),
        }
    }

    /// Finishes the session.
    ///
    /// `status` and `rules` are what the native build step returned; it is
    /// run, and they are looked at, only for a session that is ready.
    pub fn compile_rules(self, status: i32, rules: usize) -> (built: Result<Rules<'a>, CompileError>)
        ensures
            match built {
                Ok(set) => self@.build(status, rules) == Ok::<usize, CompileErrorView>(set.handle()),
                Err(error) => self@.build(status, rules) == Err::<usize, CompileErrorView>(error@),
            },
    {
        match self.rejected {
            Some(rejected) => {
                return Err(CompileError::Compilation { diagnostics: rejected });
            },
            None => {},
        }
        if self.accepted.len() == 0 {
            Err(CompileError::EmptyRuleSet)
        } else if status != ERROR_SUCCESS {
            Err(CompileError::BuildFailed { cause: status })
        } else {
            Ok(Rules::new(rules))
        }
    }
}

/// What the outcome of reading a file of rule source holds.
pub open spec fn read_view(read: Result<Vec<Diagnostic>, Option<i32>>) -> Result<Seq<Diagnostic>, Option<i32>> {
    match read {
        Ok(diagnostics) => Ok(diagnostics@),
        Err(os_error) => Err(os_error),
    }
}

} // verus!

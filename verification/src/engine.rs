//! The process-wide count of engine handles.
//!
//! The native engine has one global state, which must be initialized before
//! the first handle is given out and finalized after the last one is given
//! back. [`Engine`] keeps the count that decides both. It does not call the
//! engine: its functions say when the native initializer or finalizer has to
//! run, and take the status that came back.

use vstd::prelude::*;
use crate::errors::YaraError;
use crate::native::ERROR_SUCCESS;
use crate::Yara;

verus! {

/// One step in the life of the engine's handles.
pub enum EngineOp {
    /// A handle is asked for. `init_status` is what the native initializer
    /// returns if this step has to run it.
    Acquire { init_status: i32 },
    /// A handle is given back.
    Release,
}

/// Whether `op`, with `live` handles out, runs the native initializer.
pub open spec fn initializes(live: nat, op: EngineOp) -> bool {
    op is Acquire && live == 0
}

/// Whether `op`, with `live` handles out, gives out a handle: it does unless
/// it had to run the native initializer and that failed.
pub open spec fn grants(live: nat, op: EngineOp) -> bool {
    op matches EngineOp::Acquire { init_status } && (live > 0 || init_status == ERROR_SUCCESS)
}

/// Whether `op`, with `live` handles out, runs the native finalizer.
pub open spec fn finalizes(live: nat, op: EngineOp) -> bool {
    op is Release && live == 1
}

/// The number of handles out after `op`, with `live` of them out before.
pub open spec fn live_after(live: nat, op: EngineOp) -> nat {
    if grants(live, op) {
        live + 1
    } else if op is Release && live > 0 {
        (live - 1) as nat
    } else {
        live
    }
}

/// The number of handles out after the steps `ops`, starting with none.
pub open spec fn live_after_all(ops: Seq<EngineOp>) -> nat
    decreases ops.len(),
{
    if ops.len() == 0 {
        0
    } else {
        live_after(live_after_all(ops.drop_last()), ops.last())
    }
}

/// How often the steps `ops`, starting with no handle out, have run the
/// native initializer with success.
pub open spec fn initializations(ops: Seq<EngineOp>) -> nat
    decreases ops.len(),
{
    if ops.len() == 0 {
        0
    } else {
        let before = live_after_all(ops.drop_last());
        let now: nat = if initializes(before, ops.last()) && grants(before, ops.last()) {
            1
        } else {
            0
        };
        initializations(ops.drop_last()) + now
    }
}

/// How often the steps `ops`, starting with no handle out, have run the
/// native finalizer.
pub open spec fn finalizations(ops: Seq<EngineOp>) -> nat
    decreases ops.len(),
{
    if ops.len() == 0 {
        0
    } else {
        let before = live_after_all(ops.drop_last());
        let now: nat = if finalizes(before, ops.last()) {
            1
        } else {
            0
        };
        finalizations(ops.drop_last()) + now
    }
}

/// After any steps the engine is initialized exactly when a handle is out:
/// it has been initialized once more often than finalized while handles are
/// out, and equally often while none is.
pub proof fn lemma_initialized_while_live(ops: Seq<EngineOp>)
    ensures
        initializations(ops) == finalizations(ops) + (if live_after_all(ops) > 0 {
            1nat
        } else {
            0nat
        }),
    decreases ops.len(),
{
    if ops.len() > 0 {
        lemma_initialized_while_live(ops.drop_last());
    }
}

/// Between the first handle and the return of the last one the engine is
/// initialized once and finalized once, however many handles come and go in
/// between.
///
/// The steps start with no handle out; the first gives out a handle, from
/// then on a handle is out until the last step, and none is out after it.
pub proof fn lemma_initialized_once(ops: Seq<EngineOp>)
    requires
        ops.len() > 0,
        grants(0, ops[0]),
        forall|k: int| 0 < k < ops.len() ==> live_after_all(#[trigger] ops.take(k)) > 0,
        live_after_all(ops) == 0,
    ensures
        initializations(ops) == 1,
        finalizations(ops) == 1,
        ops.last() is Release,
{
    if ops.len() == 1 {
        assert(ops.drop_last().len() == 0);
        assert(ops.last() == ops[0]);
    } else {
        lemma_once_while_live(ops, ops.len() - 1);
        assert(ops.take(ops.len() - 1) == ops.drop_last());
    }
}

/// While a handle stays out after the first step, the engine has been
/// initialized once and not finalized.
proof fn lemma_once_while_live(ops: Seq<EngineOp>, k: int)
    requires
        0 < k < ops.len(),
        grants(0, ops[0]),
        forall|j: int| 0 < j < ops.len() ==> live_after_all(#[trigger] ops.take(j)) > 0,
    ensures
        initializations(ops.take(k)) == 1,
        finalizations(ops.take(k)) == 0,
    decreases k,
{
    let prefix = ops.take(k);
    assert(prefix.last() == ops[k - 1]);
    if k == 1 {
        let none = prefix.drop_last();
        assert(none.len() == 0);
        assert(live_after_all(none) == 0);
        assert(initializations(none) == 0);
        assert(finalizations(none) == 0);
    } else {
        lemma_once_while_live(ops, k - 1);
        assert(prefix.drop_last() == ops.take(k - 1));
    }
}

/// The library's record of the native engine: how many handles are out, and
/// with that whether the engine is initialized. A process keeps one such
/// record and changes it under a lock.
pub struct Engine {
    live: u64,
}

impl Engine {
    /// The number of handles that are out.
    pub closed spec fn live(&self) -> nat {
        self.live as nat
    }

    /// A count with no handle out: the engine is not initialized.
    pub fn new() -> (engine: Engine)
        ensures
            engine.live() == 0,
    {
        Engine { live: 0 }
    }

    /// The number of handles that are out.
    pub fn live_handles(&self) -> (live: u64)
        ensures
            live == self.live(),
    {
        self.live
    }

    /// Whether the next handle can only be given out after the native
    /// initializer has run.
    pub fn needs_initialize(&self) -> (needed: bool)
        ensures
            needed == initializes(self.live(), EngineOp::Acquire { init_status: ERROR_SUCCESS }),
            needed == (self.live() == 0),
    {
        self.live == 0
    }

    /// Counts one more handle, unless the initializer had to run and failed.
    pub(crate) fn enter(&mut self, init_status: i32) -> (granted: bool)
        requires
            old(self).live() < u64::MAX,
        ensures
            granted == grants(old(self).live(), EngineOp::Acquire { init_status }),
            final(self).live() == live_after(old(self).live(), EngineOp::Acquire { init_status }),
    {
        if self.live > 0 || init_status == ERROR_SUCCESS {
            self.live = self.live + 1;
            true
        } else {
            false
        }
    }

    /// Takes a handle back and says whether the native finalizer has to run
    /// now: it has to when this was the last handle out.
    pub fn release(&mut self, handle: Yara) -> (finalize: bool)
        ensures
            finalize == finalizes(old(self).live(), EngineOp::Release),
            final(self).live() == live_after(old(self).live(), EngineOp::Release),
    {
        let _ = handle;
        if self.live > 0 {
            self.live = self.live - 1;
            self.live == 0
        } else {
            false
        }
    }

    /// Judges the status that the native finalizer returned. Any status but
    /// success is fatal: the engine must not be used again in this process.
    pub fn finalized(status: i32) -> (verdict: Result<(), YaraError>)
        ensures
            status == ERROR_SUCCESS ==> verdict is Ok,
            status != ERROR_SUCCESS ==> verdict == Err::<(), YaraError>(YaraError::FatalFinalizationFailure),
    {
        if status == ERROR_SUCCESS {
            Ok(())
        } else {
            Err(YaraError::FatalFinalizationFailure)
        }
    }
}

} // verus!

//! The process-wide lifecycle guard for the native engine.
//!
//! The engine must be initialized once before its first use and shut down
//! once at process exit. The guard is a two-state machine: the first call
//! moves it from `Fresh` to `Ready` and asks the caller to perform the native
//! initialization and to register the one shutdown hook; every later call
//! finds it `Ready` and asks for nothing. The shell holds the single guard
//! value behind a once-only primitive, so that concurrent first uses are
//! serialized and all of them observe the machine below in some order; the
//! theorem [`lemma_init_exactly_once`] then says that any number of calls
//! yields exactly one native initialization and one registered shutdown.

use vstd::prelude::*;

verus! {

/// The state of the process-wide guard.
pub enum InitState {
    /// The native engine has not been initialized yet.
    Fresh,
    /// The native engine is initialized and the shutdown hook is registered.
    Ready,
}

/// What one guard call does from a given state: the next state, and whether
/// the caller must now initialize the engine and register the shutdown hook.
pub open spec fn guard_step(st: InitState) -> (InitState, bool) {
    (InitState::Ready, st is Fresh)
}

/// One call of the initialization guard.
///
/// Returns the guard's next state and whether the caller must now perform
/// the native initialization and register the one shutdown hook. That action
/// is requested exactly when the guard was still `Fresh`; afterwards the
/// guard is `Ready`, so the request fires at most once per process. If the
/// native initialization then fails, the process cannot continue and the
/// shell terminates it with a fatal diagnostic.
pub fn ensure_initialized(st: InitState) -> (r: (InitState, bool))
    ensures
        (r.0, r.1) == guard_step(st),
        r.0 is Ready,
        r.1 <==> (st is Fresh),
{
    match st {
        InitState::Fresh => (InitState::Ready, true),
        InitState::Ready => (InitState::Ready, false),
    }
}

/// How many native initializations `n` successive guard calls request,
/// starting from state `st`.
pub open spec fn init_calls(st: InitState, n: nat) -> nat
    decreases n,
{
    if n == 0 {
        0
    } else {
        let (next, fired) = guard_step(st);
        (if fired {
            1nat
        } else {
            0nat
        }) + init_calls(next, (n - 1) as nat)
    }
}

proof fn lemma_ready_never_fires(n: nat)
    ensures
        init_calls(InitState::Ready, n) == 0,
    decreases n,
{
    if n > 0 {
        lemma_ready_never_fires((n - 1) as nat);
    }
}

/// Idempotence of the guard: however many times it is called — once the
/// once-only primitive in the shell has serialized the callers — exactly one
/// call requests the native initialization and the shutdown registration.
pub proof fn lemma_init_exactly_once(n: nat)
    requires
        n >= 1,
    ensures
        init_calls(InitState::Fresh, n) == 1,
{
    lemma_ready_never_fires((n - 1) as nat);
}

} // verus!

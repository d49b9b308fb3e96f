use crate::core_state::CoreState;
use crate::errors::InitError;
use crate::runtime::Runtime;
use vstd::prelude::*;

verus! {

/// Options supplied by the host at construction: an explicit test-mode
/// flag, or nothing, leaving the mode to the environment signal.
pub struct RuntimeOptions {
    pub test_mode: Option<bool>,
}

impl Default for RuntimeOptions {
    fn default() -> (d: RuntimeOptions)
        ensures
            d.test_mode is None,
    {
        RuntimeOptions { test_mode: Option::None }
    }
}

/// Whether execution is in test mode: an explicit flag wins; otherwise the
/// environment signal for a test execution context decides.
pub fn resolve_test_mode(options: RuntimeOptions, env_signals_test: bool) -> (b: bool)
    ensures
        b == (match options.test_mode {
            Option::Some(v) => v,
            Option::None => env_signals_test,
        }),
{
    match options.test_mode {
        Option::Some(v) => v,
        Option::None => env_signals_test,
    }
}

/// A runtime handle fresh from construction: it wraps exactly the
/// assembled core, with nothing queued and no calls issued.
pub open spec fn is_fresh_runtime(rt: Runtime, core: CoreState) -> bool {
    rt.core == core && rt.pending@.len() == 0 && rt.next_call_id == 0
}

/// The state of the process-wide single-assignment cell that replaces
/// ambient global access: unset until the first construction attempt, then
/// permanently the runtime that attempt produced, or the failure it ended
/// in.
pub enum CellState {
    Unset,
    Ready(Runtime),
    Failed(String),
}

/// The explicit, lazily-initialized single-assignment cell holding the
/// process-wide construction outcome. The host keeps one such cell per
/// process, behind its own synchronization; test-mode construction
/// bypasses it entirely.
pub struct InitCell {
    pub state: CellState,
}

/// What one non-test `obtain` call does to the cell and reports to its
/// caller. `built` is the outcome of the construction attempt the caller
/// stands ready to perform; a decided cell never consumes it.
pub open spec fn obtain_post(
    pre: CellState,
    built: Result<CoreState, String>,
    post: CellState,
    r: Result<(), InitError>,
) -> bool {
    match pre {
        CellState::Unset => (match built {
            Result::Ok(core) => (match post {
                CellState::Ready(rt) => is_fresh_runtime(rt, core) && r is Ok,
                _ => false,
            }),
            Result::Err(m) => post == CellState::Failed(m) && (r matches Err(e) && e.message@
                == m@),
        }),
        CellState::Ready(_) => post == pre && r is Ok,
        CellState::Failed(m) => post == pre && (r matches Err(e) && e.message@ == m@),
    }
}

impl InitCell {
    /// The cell before any caller: no construction attempted yet.
    pub fn empty() -> (c: InitCell)
        ensures
            c.state is Unset,
    {
        InitCell { state: CellState::Unset }
    }

    /// RuntimeHandle lifecycle, non-test path: process-wide exactly-once
    /// initialization. The first caller's construction outcome is stored
    /// for the process lifetime; every later caller observes the stored
    /// outcome, success or failure alike, and no further construction is
    /// consumed. A remembered failure is re-surfaced, never retried.
    pub fn obtain(&mut self, built: Result<CoreState, String>) -> (r: Result<(), InitError>)
        ensures
            obtain_post(old(self).state, built, final(self).state, r),
    {
        match &self.state {
            CellState::Unset => match built {
                Result::Ok(core) => {
                    self.state = CellState::Ready(
                        Runtime { core, pending: Vec::new(), next_call_id: 0 },
                    );
                    Result::Ok(())
                },
                Result::Err(m) => {
                    let e = InitError { message: m.clone() };
                    self.state = CellState::Failed(m);
                    Result::Err(e)
                },
            },
            CellState::Ready(_) => Result::Ok(()),
            CellState::Failed(m) => Result::Err(InitError { message: m.clone() }),
        }
    }

    /// Read access to the singleton runtime once the cell is decided.
    pub fn runtime(&self) -> (r: Option<&Runtime>)
        ensures
            (match self.state {
                CellState::Ready(rt) => r matches Some(p) && *p == rt,
                _ => r is None,
            }),
    {
        match &self.state {
            CellState::Ready(rt) => Option::Some(rt),
            _ => Option::None,
        }
    }
}

/// RuntimeHandle lifecycle, test path: bypass the cell and wrap the
/// freshly constructed core. Every call yields a fresh handle owning its
/// own registration state; no two share anything. The host starts the
/// fresh core's execution loop in the background immediately.
pub fn obtain_test(built: Result<CoreState, String>) -> (r: Result<Runtime, InitError>)
    ensures
        (match built {
            Result::Ok(core) => r matches Ok(rt) && is_fresh_runtime(rt, core),
            Result::Err(m) => r matches Err(e) && e.message@ == m@,
        }),
{
    match built {
        Result::Ok(core) => Result::Ok(Runtime { core, pending: Vec::new(), next_call_id: 0 }),
        Result::Err(m) => Result::Err(InitError { message: m }),
    }
}

} // verus!

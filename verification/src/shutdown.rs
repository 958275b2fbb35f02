//! The shutdown coordinator: a `Running -> Stopping -> Stopped` state
//! machine. The embedding layer races the external cancellation signal
//! against the process interrupt and reports the first completion as one
//! stop event; the coordinator decides, and it alone decides, whether the
//! terminal hook runs. The hook is ordered at most once, whatever the
//! number of stop events, and exactly once when a hook is configured.

use vstd::prelude::*;

verus! {

/// Where the coordinator stands.
#[derive(Clone, Copy, PartialEq, Eq, Structural, Debug)]
pub enum ShutdownPhase {
    /// The accept loop is active.
    Running,
    /// A stop event has arrived; the terminal hook, if one is
    /// configured, is being run.
    Stopping,
    /// Terminal: the hook has finished and the accept loop no longer
    /// accepts connections.
    Stopped,
}

/// What the embedding layer must do after reporting a stop event.
#[derive(Clone, Copy, PartialEq, Eq, Structural, Debug)]
pub enum ShutdownAction {
    /// Run the terminal hook, once, on a read-only reference to the
    /// shared state, then report back through
    /// [`ShutdownCoordinator::hook_finished`].
    RunHook,
    /// Do nothing.
    Ignore,
}

/// The coordinator's state: its phase, and whether a terminal hook was
/// configured at bind time.
#[verifier::ext_equal]
#[derive(Clone, Copy, PartialEq, Eq, Structural, Debug)]
pub struct CoordinatorState {
    pub phase: ShutdownPhase,
    pub has_hook: bool,
}

/// One step of the state machine on a stop event: the first event moves
/// `Running` to `Stopping` and orders the hook exactly when one is
/// configured; every later event changes nothing and orders nothing.
pub open spec fn shutdown_step(pre: CoordinatorState) -> (CoordinatorState, ShutdownAction) {
    if pre.phase is Running {
        (
            CoordinatorState { phase: ShutdownPhase::Stopping, has_hook: pre.has_hook },
            if pre.has_hook {
                ShutdownAction::RunHook
            } else {
                ShutdownAction::Ignore
            },
        )
    } else {
        (pre, ShutdownAction::Ignore)
    }
}

/// The actions the machine emits on `n` successive stop events.
pub open spec fn shutdown_actions(pre: CoordinatorState, n: nat) -> Seq<ShutdownAction>
    decreases n,
{
    if n == 0 {
        Seq::empty()
    } else {
        seq![shutdown_step(pre).1] + shutdown_actions(shutdown_step(pre).0, (n - 1) as nat)
    }
}

/// How many of the emitted actions order the hook to run.
pub open spec fn hook_run_count(actions: Seq<ShutdownAction>) -> nat
    decreases actions.len(),
{
    if actions.len() == 0 {
        0
    } else {
        hook_run_count(actions.drop_first()) + if actions[0] is RunHook {
            1nat
        } else {
            0nat
        }
    }
}

proof fn lemma_stopped_machine_orders_nothing(pre: CoordinatorState, n: nat)
    requires
        !(pre.phase is Running),
    ensures
        hook_run_count(shutdown_actions(pre, n)) == 0,
    decreases n,
{
    if n > 0 {
        lemma_stopped_machine_orders_nothing(pre, (n - 1) as nat);
        assert(shutdown_actions(pre, n).drop_first() =~= shutdown_actions(pre, (n - 1) as nat));
    }
}

/// The terminal hook runs exactly once: however many stop events reach a
/// running coordinator that has a hook configured — a cancellation
/// signal and an interrupt, or the same signal reported twice — exactly
/// the first of them orders the hook.
pub proof fn lemma_hook_runs_exactly_once(pre: CoordinatorState, n: nat)
    requires
        pre.phase is Running,
        pre.has_hook,
        n >= 1,
    ensures
        hook_run_count(shutdown_actions(pre, n)) == 1,
{
    let after = shutdown_step(pre).0;
    lemma_stopped_machine_orders_nothing(after, (n - 1) as nat);
    assert(shutdown_actions(pre, n).drop_first() =~= shutdown_actions(after, (n - 1) as nat));
}

/// Without a configured hook no stop event ever orders one: the legacy
/// mode blocks until interrupted and then simply stops.
pub proof fn lemma_no_hook_never_runs(pre: CoordinatorState, n: nat)
    requires
        !pre.has_hook,
    ensures
        hook_run_count(shutdown_actions(pre, n)) == 0,
    decreases n,
{
    if n > 0 {
        lemma_no_hook_never_runs(shutdown_step(pre).0, (n - 1) as nat);
        assert(shutdown_actions(pre, n).drop_first() =~= shutdown_actions(
            shutdown_step(pre).0,
            (n - 1) as nat,
        ));
    }
}

/// Coordinates the shutdown of one server. The embedding layer creates
/// it at bind time, reports each stop event through
/// [`ShutdownCoordinator::on_stop_event`], performs the returned action,
/// and reports the hook's completion; if the hook fails, the failure is
/// fatal to the shutdown path and must propagate, not be retried.
pub struct ShutdownCoordinator {
    pub(crate) phase: ShutdownPhase,
    pub(crate) has_hook: bool,
}

impl View for ShutdownCoordinator {
    type V = CoordinatorState;

    open(crate) spec fn view(&self) -> CoordinatorState {
        CoordinatorState { phase: self.phase, has_hook: self.has_hook }
    }
}

impl ShutdownCoordinator {
    /// A coordinator for a freshly bound server: running, with a hook
    /// exactly when the caller configured one.
    pub fn new(has_hook: bool) -> (c: ShutdownCoordinator)
        ensures
            c@ == (CoordinatorState { phase: ShutdownPhase::Running, has_hook }),
    {
        ShutdownCoordinator { phase: ShutdownPhase::Running, has_hook }
    }

    /// Reports one stop event: the external cancellation signal or the
    /// process interrupt, whichever completed — the coordinator does not
    /// distinguish them. Steps the machine and returns the action owed.
    pub fn on_stop_event(&mut self) -> (a: ShutdownAction)
        ensures
            (final(self)@, a) == shutdown_step(old(self)@),
    {
        match self.phase {
            ShutdownPhase::Running => {
                self.phase = ShutdownPhase::Stopping;
                if self.has_hook {
                    ShutdownAction::RunHook
                } else {
                    ShutdownAction::Ignore
                }
            },
            _ => ShutdownAction::Ignore,
        }
    }

    /// Reports that the terminal hook ran to completion; the coordinator
    /// becomes `Stopped`, its terminal phase.
    pub fn hook_finished(&mut self)
        requires
            old(self)@.phase is Stopping,
        ensures
            final(self)@ == (CoordinatorState {
                phase: ShutdownPhase::Stopped,
                has_hook: old(self)@.has_hook,
            }),
    {
        self.phase = ShutdownPhase::Stopped;
    }

    /// The phase the coordinator stands in.
    pub fn phase(&self) -> (p: ShutdownPhase)
        ensures
            p == self@.phase,
    {
        self.phase
    }
}

} // verus!

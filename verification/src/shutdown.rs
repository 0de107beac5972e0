//! Layered shutdown protocol: a running orchestration ends either because the
//! operator interrupts it or because the connection's `run` activity ends on
//! its own, and both paths converge on a single best-effort disconnect.

use vstd::prelude::*;

verus! {

/// Which of the two top-level triggers ended the running phase.
pub enum Trigger<E> {
    /// Operator-issued stop signal.
    Interrupt,
    /// The connection's `run` activity returned, normally or with an error.
    RunEnded(Result<(), E>),
}

/// The phases of the orchestration, in the order they are entered.
/// No transition ever returns to `Running`; both shutdown phases are
/// terminal paths that converge at `Disconnected`.
#[derive(Clone, Copy, PartialEq, Eq, Structural, Debug)]
pub enum Phase {
    Running,
    ShuttingDownViaInterrupt,
    ShuttingDownViaRunEnd,
    Disconnected,
}

/// What the caller must do to the two worker tasks after a trigger fired.
#[derive(Clone, Copy, PartialEq, Eq, Structural, Debug)]
pub struct CancelPlan {
    /// Abort the publisher task without draining it.
    pub cancel_publisher: bool,
    /// Abort the receiver task without draining it.
    pub cancel_receiver: bool,
    /// Await the cancelled tasks, tolerating a "was cancelled" outcome.
    pub join_cancelled_tasks: bool,
}

/// The shutdown state machine. `E` is the error type of the `run` activity;
/// its value is carried through untouched.
pub struct Coordinator<E> {
    pub phase: Phase,
    /// Result of the `run` activity, recorded only on the run-end path.
    pub run_result: Option<Result<(), E>>,
    /// How many disconnect calls have been issued so far.
    pub disconnect_calls: u64,
}

/// The plan on the interrupt path: both tasks are cancelled at once and then
/// joined.
pub open spec fn interrupt_plan() -> CancelPlan {
    CancelPlan { cancel_publisher: true, cancel_receiver: true, join_cancelled_tasks: true }
}

/// The plan on the run-end path: the tasks are abandoned, never cancelled.
pub open spec fn abandon_plan() -> CancelPlan {
    CancelPlan { cancel_publisher: false, cancel_receiver: false, join_cancelled_tasks: false }
}

/// One step of the state machine out of `Running`, as a pure function.
pub open spec fn step_trigger<E>(c: Coordinator<E>, t: Trigger<E>) -> (Coordinator<E>, CancelPlan) {
    match t {
        Trigger::Interrupt => (
            Coordinator {
                phase: Phase::ShuttingDownViaInterrupt,
                run_result: c.run_result,
                disconnect_calls: c.disconnect_calls,
            },
            interrupt_plan(),
        ),
        Trigger::RunEnded(res) => (
            Coordinator {
                phase: Phase::ShuttingDownViaRunEnd,
                run_result: Some(res),
                disconnect_calls: c.disconnect_calls,
            },
            abandon_plan(),
        ),
    }
}

/// The final step: reach `Disconnected`, issuing a disconnect call exactly
/// when one has not been issued yet. The returned flag says whether the
/// caller must perform the call.
pub open spec fn step_disconnect<E>(c: Coordinator<E>) -> (Coordinator<E>, bool) {
    if c.phase is Disconnected {
        (c, false)
    } else {
        (
            Coordinator {
                phase: Phase::Disconnected,
                run_result: c.run_result,
                disconnect_calls: (c.disconnect_calls + 1) as u64,
            },
            true,
        )
    }
}

/// The terminal result of the whole orchestration: success when interrupted,
/// otherwise whatever the `run` activity returned.
pub open spec fn spec_outcome<E>(c: Coordinator<E>) -> Result<(), E> {
    match c.run_result {
        None => Ok(()),
        Some(res) => res,
    }
}

impl<E> Coordinator<E> {
    /// Internal consistency: the run result exists exactly on the run-end
    /// path, and a disconnect has been issued exactly once at the end.
    pub open spec fn wf(self) -> bool {
        &&& self.phase is Running ==> self.run_result is None && self.disconnect_calls == 0
        &&& self.phase is ShuttingDownViaInterrupt ==> self.run_result is None
            && self.disconnect_calls == 0
        &&& self.phase is ShuttingDownViaRunEnd ==> self.run_result is Some
            && self.disconnect_calls == 0
        &&& self.phase is Disconnected ==> self.disconnect_calls == 1
    }

    /// A fresh coordinator, observing a running orchestration.
    pub fn new() -> (c: Self)
        ensures
            c.wf(),
            c.phase is Running,
            c.run_result is None,
            c.disconnect_calls == 0,
    {
        Coordinator { phase: Phase::Running, run_result: None, disconnect_calls: 0 }
    }

    /// React to whichever trigger fired first. On an interrupt both worker
    /// tasks are cancelled in this same step; on run end they are abandoned
    /// and the run result is recorded as the future outcome.
    pub fn on_trigger(&mut self, t: Trigger<E>) -> (plan: CancelPlan)
        requires
            old(self).wf(),
            old(self).phase is Running,
        ensures
            final(self).wf(),
            (*final(self), plan) == step_trigger(*old(self), t),
            !(final(self).phase is Running),
            !(final(self).phase is Disconnected),
    {
        match t {
            Trigger::Interrupt => {
                self.phase = Phase::ShuttingDownViaInterrupt;
                CancelPlan {
                    cancel_publisher: true,
                    cancel_receiver: true,
                    join_cancelled_tasks: true,
                }
            },
            Trigger::RunEnded(res) => {
                self.phase = Phase::ShuttingDownViaRunEnd;
                self.run_result = Some(res);
                CancelPlan {
                    cancel_publisher: false,
                    cancel_receiver: false,
                    join_cancelled_tasks: false,
                }
            },
        }
    }

    /// Move to `Disconnected`. The first call after a trigger orders the one
    /// disconnect call; any later call is a no-op, so issuing it twice is
    /// harmless.
    pub fn disconnect_step(&mut self) -> (issue: bool)
        requires
            old(self).wf(),
            !(old(self).phase is Running),
        ensures
            final(self).wf(),
            (*final(self), issue) == step_disconnect(*old(self)),
            final(self).phase is Disconnected,
            final(self).disconnect_calls == 1,
            issue == !(old(self).phase is Disconnected),
    {
        match self.phase {
            Phase::Disconnected => false,
            _ => {
                self.phase = Phase::Disconnected;
                self.disconnect_calls = self.disconnect_calls + 1;
                true
            },
        }
    }

    /// The outcome of the whole orchestration, read once it is disconnected:
    /// success if it was interrupted or `run` completed cleanly, otherwise
    /// `run`'s error.
    pub fn outcome(self) -> (r: Result<(), E>)
        requires
            self.wf(),
            self.phase is Disconnected,
        ensures
            r == spec_outcome(self),
    {
        match self.run_result {
            None => Ok(()),
            Some(res) => res,
        }
    }
}

/// Law: an interrupt delivered in the running phase cancels both the
/// publisher and the receiver in that very step, and the shutdown that
/// follows issues exactly one disconnect call.
pub proof fn lemma_interrupt_cancels_both_then_one_disconnect<E>(c: Coordinator<E>)
    requires
        c.wf(),
        c.phase is Running,
    ensures
        ({
            let (c1, plan) = step_trigger(c, Trigger::<E>::Interrupt);
            let (c2, issued) = step_disconnect(c1);
            &&& plan.cancel_publisher
            &&& plan.cancel_receiver
            &&& issued
            &&& c2.phase is Disconnected
            &&& c2.disconnect_calls == 1
            &&& spec_outcome(c2) == Result::<(), E>::Ok(())
        }),
{
}

/// Law: when the `run` activity ends with no interrupt delivered, the
/// orchestration outcome equals `run`'s own result, no task is cancelled,
/// and disconnect is still called exactly once.
pub proof fn lemma_run_end_propagates_result<E>(c: Coordinator<E>, res: Result<(), E>)
    requires
        c.wf(),
        c.phase is Running,
    ensures
        ({
            let (c1, plan) = step_trigger(c, Trigger::RunEnded(res));
            let (c2, issued) = step_disconnect(c1);
            &&& !plan.cancel_publisher
            &&& !plan.cancel_receiver
            &&& issued
            &&& c2.phase is Disconnected
            &&& c2.disconnect_calls == 1
            &&& spec_outcome(c2) == res
        }),
{
}

/// Law: the disconnect step is idempotent. After the first step has issued
/// the one disconnect call, a second step changes nothing and issues none.
pub proof fn lemma_disconnect_idempotent<E>(c: Coordinator<E>)
    requires
        c.wf(),
        !(c.phase is Running),
    ensures
        ({
            let (c1, first) = step_disconnect(c);
            let (c2, second) = step_disconnect(c1);
            &&& c1.disconnect_calls == 1
            &&& c2 == c1
            &&& !second
        }),
{
}

/// Outcome of awaiting a worker task, as the caller's runtime reports it.
#[derive(Clone, Copy, PartialEq, Eq, Structural, Debug)]
pub enum JoinOutcome {
    /// The task ran to completion.
    Completed,
    /// The task was cancelled; expected on the interrupt path.
    Cancelled,
    /// The task failed in any other way.
    Failed,
}

/// How to react to a join outcome. There is no escalating variant: a join
/// failure at shutdown is at worst a warning, never process-fatal.
#[derive(Clone, Copy, PartialEq, Eq, Structural, Debug)]
pub enum JoinReaction {
    /// Treat as success, say nothing.
    Quiet,
    /// Log a warning and carry on.
    WarnNonFatal,
}

/// Normalize a join outcome: completion and cancellation count as success,
/// anything else is logged as a non-fatal warning.
pub fn classify_join(outcome: &JoinOutcome) -> (r: JoinReaction)
    ensures
        r is WarnNonFatal <==> outcome is Failed,
{
    match outcome {
        JoinOutcome::Completed => JoinReaction::Quiet,
        JoinOutcome::Cancelled => JoinReaction::Quiet,
        JoinOutcome::Failed => JoinReaction::WarnNonFatal,
    }
}

} // verus!

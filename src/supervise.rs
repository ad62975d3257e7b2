use vstd::prelude::*;

use crate::escalation::{KillOutcome, WaitResult};

verus! {

/// Target length of one supervision cycle, in milliseconds.
pub const CYCLE_MS: u64 = 150;

/// How long each cycle waits for the child to exit by itself, in milliseconds.
pub const EXIT_POLL_MS: u32 = 50;

/// The operating-system signals that request termination.
#[derive(Clone, Copy, Debug, PartialEq, Eq, Structural)]
pub enum OsSignal {
    Interrupt,
    Terminate,
}

/// Why the supervised child stopped, or is being stopped.
#[derive(Clone, Copy, Debug, PartialEq, Eq, Structural)]
pub enum TerminationReason {
    /// The user performed the quit gesture.
    UserGesture,
    /// An operating-system termination signal arrived.
    Signal { signal: OsSignal },
    /// The child exited by itself, with this exit code if one was reported.
    SelfExit { code: Option<i32> },
}

/// The phase of the supervision loop.
#[derive(Clone, Copy, Debug, PartialEq, Eq, Structural)]
pub enum Phase {
    /// The child runs; the loop watches input, signals and the child.
    Running,
    /// Termination was decided, for `reason`; attempts go on until one succeeds.
    Terminating { reason: TerminationReason },
    /// The run is over, for `reason`.
    Done { reason: TerminationReason },
}

/// What one cycle saw.
#[derive(Clone, Copy, Debug, PartialEq, Eq, Structural)]
pub struct Observation {
    /// The result of the short bounded wait on the child.
    pub exit: WaitResult,
    /// Whether the quit gesture holds.
    pub gesture: bool,
    /// Whether an interrupt signal has been received.
    pub interrupt: bool,
    /// Whether a terminate signal has been received.
    pub terminate: bool,
}

/// What the loop is told.
#[derive(Clone, Copy, Debug, PartialEq, Eq, Structural)]
pub enum LoopEvent {
    /// A new cycle, with what it saw.
    Cycle { seen: Observation },
    /// A termination attempt has ended.
    Attempted { outcome: KillOutcome },
}

/// What the loop asks for.
#[derive(Clone, Copy, Debug, PartialEq, Eq, Structural)]
pub enum LoopAction {
    /// Nothing; wait for the next cycle.
    Idle,
    /// Show that the child is being killed and run one termination attempt.
    Terminate,
    /// Show that the attempt failed; the next cycle tries again.
    ReportFailure,
    /// Clear the screen and end the program with `exit_code`.
    Shutdown { exit_code: i32 },
}

/// The reason for terminating that a cycle's observation gives, if any.
pub open spec fn requested(o: Observation) -> Option<TerminationReason> {
    if o.gesture {
        Some(TerminationReason::UserGesture)
    } else if o.interrupt {
        Some(TerminationReason::Signal { signal: OsSignal::Interrupt })
    } else if o.terminate {
        Some(TerminationReason::Signal { signal: OsSignal::Terminate })
    } else {
        None
    }
}

/// One transition of the supervision loop. While running, a child that has
/// exited is seen before any quit request; the decision to terminate is taken
/// once; a failed attempt is retried on the next cycle.
pub open spec fn loop_step(p: Phase, e: LoopEvent) -> (Phase, LoopAction) {
    match p {
        Phase::Running => match e {
            LoopEvent::Cycle { seen } => match seen.exit {
                WaitResult::Exited { status } => (
                    Phase::Done { reason: TerminationReason::SelfExit { code: status.code } },
                    LoopAction::Shutdown { exit_code: 0 },
                ),
                _ => match requested(seen) {
                    Some(reason) => (Phase::Terminating { reason }, LoopAction::Terminate),
                    None => (Phase::Running, LoopAction::Idle),
                },
            },
            LoopEvent::Attempted { .. } => (Phase::Running, LoopAction::Idle),
        },
        Phase::Terminating { reason } => match e {
            LoopEvent::Cycle { .. } => (p, LoopAction::Terminate),
            LoopEvent::Attempted { outcome } => match outcome {
                KillOutcome::Exited { .. } => (Phase::Done { reason }, LoopAction::Shutdown { exit_code: 0 }),
                KillOutcome::Failed => (p, LoopAction::ReportFailure),
            },
        },
        Phase::Done { .. } => (p, LoopAction::Idle),
    }
}

/// The phase reached from `p` after the events `es`, in order.
pub open spec fn loop_run(p: Phase, es: Seq<LoopEvent>) -> Phase
    decreases es.len(),
{
    if es.len() == 0 {
        p
    } else {
        loop_run(loop_step(p, es[0]).0, es.drop_first())
    }
}

/// The actions asked for from `p` over the events `es`, in order.
pub open spec fn loop_actions(p: Phase, es: Seq<LoopEvent>) -> Seq<LoopAction>
    decreases es.len(),
{
    if es.len() == 0 {
        Seq::empty()
    } else {
        seq![loop_step(p, es[0]).1] + loop_actions(loop_step(p, es[0]).0, es.drop_first())
    }
}

/// The termination reason that the observation `o` requests, if any.
pub fn requested_by(o: &Observation) -> (r: Option<TerminationReason>)
    ensures
        r == requested(*o),
{
    if o.gesture {
        Some(TerminationReason::UserGesture)
    } else if o.interrupt {
        Some(TerminationReason::Signal { signal: OsSignal::Interrupt })
    } else if o.terminate {
        Some(TerminationReason::Signal { signal: OsSignal::Terminate })
    } else {
        None
    }
}

impl Phase {
    /// Takes one event and gives the next phase and the action to perform.
    pub fn step(self, e: LoopEvent) -> (r: (Phase, LoopAction))
        ensures
            r == loop_step(self, e),
    {
        match self {
            Phase::Running => match e {
                LoopEvent::Cycle { seen } => match seen.exit {
                    WaitResult::Exited { status } => (
                        Phase::Done { reason: TerminationReason::SelfExit { code: status.code } },
                        LoopAction::Shutdown { exit_code: 0 },
                    ),
                    _ => match requested_by(&seen) {
                        Some(reason) => (Phase::Terminating { reason }, LoopAction::Terminate),
                        None => (Phase::Running, LoopAction::Idle),
                    },
                },
                LoopEvent::Attempted { .. } => (Phase::Running, LoopAction::Idle),
            },
            Phase::Terminating { reason } => match e {
                LoopEvent::Cycle { .. } => (self, LoopAction::Terminate),
                LoopEvent::Attempted { outcome } => match outcome {
                    KillOutcome::Exited { .. } => (Phase::Done { reason }, LoopAction::Shutdown { exit_code: 0 }),
                    KillOutcome::Failed => (self, LoopAction::ReportFailure),
                },
            },
            Phase::Done { .. } => (self, LoopAction::Idle),
        }
    }
}

/// How long to sleep after a cycle whose work took `elapsed`, for a cycle of
/// `period` (same unit): the remainder, or nothing once the period is used up.
pub fn pause_after(elapsed: u64, period: u64) -> (r: u64)
    ensures
        elapsed < period ==> r == period - elapsed && elapsed + r == period,
        elapsed >= period ==> r == 0,
{
    if elapsed < period {
        period - elapsed
    } else {
        0
    }
}

/// One action is asked for per event.
pub proof fn lemma_one_action_per_event(p: Phase, es: Seq<LoopEvent>)
    ensures
        loop_actions(p, es).len() == es.len(),
    decreases es.len(),
{
    if es.len() > 0 {
        lemma_one_action_per_event(loop_step(p, es[0]).0, es.drop_first());
    }
}

/// Once the run is over, it stays over and no further action is asked for.
pub proof fn lemma_done_is_final(reason: TerminationReason, es: Seq<LoopEvent>)
    ensures
        loop_run(Phase::Done { reason }, es) == (Phase::Done { reason }),
        forall|i: int| 0 <= i < es.len() ==> #[trigger] loop_actions(Phase::Done { reason }, es)[i] == LoopAction::Idle,
    decreases es.len(),
{
    if es.len() > 0 {
        lemma_done_is_final(reason, es.drop_first());
        lemma_one_action_per_event(Phase::Done { reason }, es.drop_first());
        let rest = loop_actions(Phase::Done { reason }, es.drop_first());
        assert(loop_actions(Phase::Done { reason }, es) == seq![LoopAction::Idle] + rest);
        assert forall|i: int| 0 <= i < es.len() implies #[trigger] loop_actions(Phase::Done { reason }, es)[i]
            == LoopAction::Idle by {
            if i > 0 {
                assert(loop_actions(Phase::Done { reason }, es)[i] == rest[i - 1]);
            }
        }
    }
}

/// A child seen to have exited while the loop runs ends the run as a
/// self-exit with its code, and no termination attempt is ever asked for.
pub proof fn lemma_self_exit_never_terminates(seen: Observation, es: Seq<LoopEvent>)
    requires
        seen.exit is Exited,
    ensures
        loop_run(Phase::Running, seq![LoopEvent::Cycle { seen }] + es) == (Phase::Done {
            reason: TerminationReason::SelfExit { code: seen.exit->status.code },
        }),
        forall|i: int|
            0 <= i <= es.len() ==> #[trigger] loop_actions(Phase::Running, seq![LoopEvent::Cycle { seen }] + es)[i]
                != LoopAction::Terminate,
{
    let reason = TerminationReason::SelfExit { code: seen.exit->status.code };
    let all = seq![LoopEvent::Cycle { seen }] + es;
    assert(all.drop_first() =~= es);
    assert(all[0] == LoopEvent::Cycle { seen });
    lemma_done_is_final(reason, es);
    lemma_one_action_per_event(Phase::Done { reason }, es);
    let rest = loop_actions(Phase::Done { reason }, es);
    assert(loop_actions(Phase::Running, all) == seq![LoopAction::Shutdown { exit_code: 0 }] + rest);
    assert forall|i: int| 0 <= i <= es.len() implies #[trigger] loop_actions(Phase::Running, all)[i]
        != LoopAction::Terminate by {
        if i > 0 {
            assert(loop_actions(Phase::Running, all)[i] == rest[i - 1]);
        }
    }
}

/// Once termination is decided for `reason`, no later event brings the loop
/// back to running or changes the reason: it stays terminating or ends done.
pub proof fn lemma_termination_decided_once(reason: TerminationReason, es: Seq<LoopEvent>)
    ensures
        loop_run(Phase::Terminating { reason }, es) == (Phase::Terminating { reason })
            || loop_run(Phase::Terminating { reason }, es) == (Phase::Done { reason }),
    decreases es.len(),
{
    if es.len() > 0 {
        let next = loop_step(Phase::Terminating { reason }, es[0]).0;
        if next == (Phase::Done { reason }) {
            lemma_done_is_final(reason, es.drop_first());
        } else {
            lemma_termination_decided_once(reason, es.drop_first());
        }
    }
}

} // verus!

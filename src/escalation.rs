use vstd::prelude::*;

verus! {

/// How long the child gets to exit after the graceful signal, in milliseconds.
pub const GRACE_MS: u32 = 3000;

/// How a finished child ended: its exit code, or none where the platform
/// reports none (for example when a signal ended it).
#[derive(Clone, Copy, Debug, PartialEq, Eq, Structural)]
pub struct ExitInfo {
    pub code: Option<i32>,
}

impl ExitInfo {
    /// Whether the child exited with code 0.
    pub fn success(&self) -> (r: bool)
        ensures
            r == (self.code == Some(0i32)),
    {
        match self.code {
            Some(c) => c == 0,
            None => false,
        }
    }
}

/// What a wait on the child came back with.
#[derive(Clone, Copy, Debug, PartialEq, Eq, Structural)]
pub enum WaitResult {
    /// The child has exited.
    Exited { status: ExitInfo },
    /// The child is still running when the wait ended.
    Running,
    /// The wait itself failed.
    Failed,
}

/// The end of one termination attempt.
#[derive(Clone, Copy, Debug, PartialEq, Eq, Structural)]
pub enum KillOutcome {
    /// The child is gone and reaped.
    Exited { status: ExitInfo },
    /// The child could not be confirmed gone; it is presumed alive.
    Failed,
}

/// Where a termination attempt stands.
#[derive(Clone, Copy, Debug, PartialEq, Eq, Structural)]
pub enum KillStage {
    /// The graceful signal has been asked for.
    Interrupting,
    /// Waiting, bounded by the grace window, for the child to exit.
    Grace,
    /// The forceful kill has been asked for.
    Killing,
    /// Waiting, without bound, for the killed child.
    Reaping,
    /// The attempt is over.
    Done { outcome: KillOutcome },
}

/// The outside work that a termination attempt asks for next.
#[derive(Clone, Copy, Debug, PartialEq, Eq, Structural)]
pub enum KillAction {
    /// Send the graceful (interrupt) signal, then report `Signal`.
    SendInterrupt,
    /// Wait up to `timeout_ms` for the child, then report `Waited`.
    WaitFor { timeout_ms: u32 },
    /// Send the forceful kill, then report `Signal`.
    SendKill,
    /// Wait for the child with no timeout, then report `Waited`.
    WaitBlocking,
    /// Nothing more to do; the attempt ended with `outcome`.
    Finish { outcome: KillOutcome },
}

/// What the outside work asked for came back with.
#[derive(Clone, Copy, Debug, PartialEq, Eq, Structural)]
pub enum KillEvent {
    /// Whether a signal could be delivered.
    Signal { delivered: bool },
    /// The result of a wait.
    Waited { result: WaitResult },
}

/// Whether `e` is the kind of report that stage `st` waits for.
pub open spec fn responds(st: KillStage, e: KillEvent) -> bool {
    match st {
        KillStage::Interrupting | KillStage::Killing => e is Signal,
        KillStage::Grace | KillStage::Reaping => e is Waited,
        KillStage::Done { .. } => false,
    }
}

/// One step of the escalation: graceful signal, bounded wait, forceful kill,
/// final wait. A failed graceful signal goes straight to the forceful kill;
/// a failed kill still goes on to the final wait. A report that the stage does
/// not wait for changes nothing.
pub open spec fn kill_step(st: KillStage, e: KillEvent) -> (KillStage, KillAction) {
    match (st, e) {
        (KillStage::Interrupting, KillEvent::Signal { delivered }) => if delivered {
            (KillStage::Grace, KillAction::WaitFor { timeout_ms: GRACE_MS })
        } else {
            (KillStage::Killing, KillAction::SendKill)
        },
        (KillStage::Grace, KillEvent::Waited { result }) => match result {
            WaitResult::Exited { status } => (
                KillStage::Done { outcome: KillOutcome::Exited { status } },
                KillAction::Finish { outcome: KillOutcome::Exited { status } },
            ),
            _ => (KillStage::Killing, KillAction::SendKill),
        },
        (KillStage::Killing, KillEvent::Signal { .. }) => (KillStage::Reaping, KillAction::WaitBlocking),
        (KillStage::Reaping, KillEvent::Waited { result }) => match result {
            WaitResult::Exited { status } => (
                KillStage::Done { outcome: KillOutcome::Exited { status } },
                KillAction::Finish { outcome: KillOutcome::Exited { status } },
            ),
            _ => (
                KillStage::Done { outcome: KillOutcome::Failed },
                KillAction::Finish { outcome: KillOutcome::Failed },
            ),
        },
        _ => (st, pending(st)),
    }
}

/// The action that stage `st` is waiting on.
pub open spec fn pending(st: KillStage) -> KillAction {
    match st {
        KillStage::Interrupting => KillAction::SendInterrupt,
        KillStage::Grace => KillAction::WaitFor { timeout_ms: GRACE_MS },
        KillStage::Killing => KillAction::SendKill,
        KillStage::Reaping => KillAction::WaitBlocking,
        KillStage::Done { outcome } => KillAction::Finish { outcome },
    }
}

/// The stage reached from `st` after the reports `es`, in order.
pub open spec fn kill_run(st: KillStage, es: Seq<KillEvent>) -> KillStage
    decreases es.len(),
{
    if es.len() == 0 {
        st
    } else {
        kill_run(kill_step(st, es[0]).0, es.drop_first())
    }
}

/// How far along the escalation a stage is.
pub open spec fn rank(st: KillStage) -> nat {
    match st {
        KillStage::Interrupting => 0,
        KillStage::Grace => 1,
        KillStage::Killing => 2,
        KillStage::Reaping => 3,
        KillStage::Done { .. } => 4,
    }
}

impl KillStage {
    /// Starts a termination attempt: the graceful signal comes first.
    pub fn start() -> (r: (KillStage, KillAction))
        ensures
            r == (KillStage::Interrupting, KillAction::SendInterrupt),
    {
        (KillStage::Interrupting, KillAction::SendInterrupt)
    }

    /// Whether this stage waits for the report `e`.
    pub fn accepts(&self, e: &KillEvent) -> (r: bool)
        ensures
            r == responds(*self, *e),
    {
        match (*self, *e) {
            (KillStage::Interrupting, KillEvent::Signal { .. }) => true,
            (KillStage::Killing, KillEvent::Signal { .. }) => true,
            (KillStage::Grace, KillEvent::Waited { .. }) => true,
            (KillStage::Reaping, KillEvent::Waited { .. }) => true,
            _ => false,
        }
    }

    /// The action that this stage is waiting on.
    pub fn pending_action(&self) -> (r: KillAction)
        ensures
            r == pending(*self),
    {
        match *self {
            KillStage::Interrupting => KillAction::SendInterrupt,
            KillStage::Grace => KillAction::WaitFor { timeout_ms: GRACE_MS },
            KillStage::Killing => KillAction::SendKill,
            KillStage::Reaping => KillAction::WaitBlocking,
            KillStage::Done { outcome } => KillAction::Finish { outcome },
        }
    }

    /// Takes the report of the last action and gives the next stage and action.
    pub fn next(self, e: KillEvent) -> (r: (KillStage, KillAction))
        ensures
            r == kill_step(self, e),
    {
        match (self, e) {
            (KillStage::Interrupting, KillEvent::Signal { delivered }) => if delivered {
                (KillStage::Grace, KillAction::WaitFor { timeout_ms: GRACE_MS })
            } else {
                (KillStage::Killing, KillAction::SendKill)
            },
            (KillStage::Grace, KillEvent::Waited { result }) => match result {
                WaitResult::Exited { status } => (
                    KillStage::Done { outcome: KillOutcome::Exited { status } },
                    KillAction::Finish { outcome: KillOutcome::Exited { status } },
                ),
                _ => (KillStage::Killing, KillAction::SendKill),
            },
            (KillStage::Killing, KillEvent::Signal { .. }) => (KillStage::Reaping, KillAction::WaitBlocking),
            (KillStage::Reaping, KillEvent::Waited { result }) => match result {
                WaitResult::Exited { status } => (
                    KillStage::Done { outcome: KillOutcome::Exited { status } },
                    KillAction::Finish { outcome: KillOutcome::Exited { status } },
                ),
                _ => (
                    KillStage::Done { outcome: KillOutcome::Failed },
                    KillAction::Finish { outcome: KillOutcome::Failed },
                ),
            },
            _ => (self, self.pending_action()),
        }
    }
}

/// A child that has already exited with `status` ends the attempt as exited
/// with that status within one attempt, whether or not the signals reach it.
pub proof fn lemma_exited_child_resolves(status: ExitInfo, kill_sent: bool)
    ensures
        kill_run(
            KillStage::Interrupting,
            seq![
                KillEvent::Signal { delivered: true },
                KillEvent::Waited { result: WaitResult::Exited { status } },
            ],
        ) == (KillStage::Done { outcome: KillOutcome::Exited { status } }),
        kill_run(
            KillStage::Interrupting,
            seq![
                KillEvent::Signal { delivered: false },
                KillEvent::Signal { delivered: kill_sent },
                KillEvent::Waited { result: WaitResult::Exited { status } },
            ],
        ) == (KillStage::Done { outcome: KillOutcome::Exited { status } }),
{
    let done = KillStage::Done { outcome: KillOutcome::Exited { status } };
    let ok = KillEvent::Waited { result: WaitResult::Exited { status } };
    let kill = KillEvent::Signal { delivered: kill_sent };
    let none = Seq::<KillEvent>::empty();
    assert(kill_run(done, none) == done);
    assert(seq![ok].drop_first() =~= none);
    assert(kill_run(KillStage::Grace, seq![ok]) == done);
    assert(kill_run(KillStage::Reaping, seq![ok]) == done);
    let a = seq![KillEvent::Signal { delivered: true }, ok];
    assert(a.drop_first() =~= seq![ok]);
    assert(kill_run(KillStage::Interrupting, a) == done);
    let b2 = seq![kill, ok];
    assert(b2.drop_first() =~= seq![ok]);
    assert(kill_run(KillStage::Killing, b2) == done);
    let b = seq![KillEvent::Signal { delivered: false }, kill, ok];
    assert(b.drop_first() =~= b2);
}

/// Every report that a stage waits for moves the attempt strictly forward, so
/// an attempt sends the graceful signal once, the forceful kill at most once,
/// and ends after at most four reports.
pub proof fn lemma_escalation_advances(st: KillStage, e: KillEvent)
    requires
        responds(st, e),
    ensures
        rank(kill_step(st, e).0) > rank(st),
        kill_step(st, e).1 != KillAction::SendInterrupt,
        kill_step(st, e).1 == KillAction::SendKill ==> kill_step(st, e).0 == KillStage::Killing,
{
}

} // verus!

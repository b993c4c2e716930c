//! Terminating the server: a cooperative request first where the platform
//! has one, escalating to a forced kill when the child does not exit in time.
use vstd::prelude::*;

verus! {

/// How a child is asked to stop.
#[derive(PartialEq, Eq, Structural, Clone, Copy, Debug)]
pub enum TerminateStrategy {
    /// Send the platform's termination request, then wait out a grace period.
    Cooperative,
    /// Kill at once (platforms without cooperative signalling).
    ForcedOnly,
}

/// The timing of a shutdown.
#[derive(PartialEq, Eq, Structural, Clone, Copy, Debug)]
pub struct ShutdownPolicy {
    pub strategy: TerminateStrategy,
    /// How long the child may take to exit after the request, in milliseconds.
    pub grace_ms: u64,
    /// The pause between two status queries, in milliseconds.
    pub poll_ms: u64,
}

impl ShutdownPolicy {
    /// A two second grace period, polled every hundred milliseconds.
    pub fn standard(strategy: TerminateStrategy) -> (r: ShutdownPolicy)
        ensures
            r == (ShutdownPolicy { strategy, grace_ms: 2000, poll_ms: 100 }),
    {
        ShutdownPolicy { strategy, grace_ms: 2000, poll_ms: 100 }
    }
}

/// Where a shutdown stands.
#[derive(PartialEq, Eq, Structural, Clone, Copy, Debug)]
pub enum ShutdownPhase {
    /// The request was sent; waiting for the child to exit.
    GracePeriod,
    /// A forced kill was issued; waiting for its confirmation.
    Forced,
    /// The child is gone.
    Exited,
}

/// What a status query, or the wait that follows a kill, found.
#[derive(PartialEq, Eq, Structural, Clone, Copy, Debug)]
pub enum ChildStatus {
    Exited,
    /// Still running, `elapsed_ms` after the termination request.
    Running { elapsed_ms: u64 },
    /// The operating system could not report the status.
    QueryFailed,
}

/// What the host does next.
#[derive(PartialEq, Eq, Structural, Clone, Copy, Debug)]
pub enum ShutdownAction {
    /// Send the cooperative termination request, then query the status.
    SendTerminate,
    /// Wait this long, then query the status.
    Sleep { ms: u64 },
    /// Kill the child unconditionally, wait for it, and report the outcome.
    ForceKill,
    /// Nothing left to do.
    Done,
}

pub open spec fn begin_spec(p: ShutdownPolicy) -> (ShutdownPhase, ShutdownAction) {
    match p.strategy {
        TerminateStrategy::Cooperative => (ShutdownPhase::GracePeriod, ShutdownAction::SendTerminate),
        TerminateStrategy::ForcedOnly => (ShutdownPhase::Forced, ShutdownAction::ForceKill),
    }
}

/// One transition of a shutdown on the report `s`.
pub open spec fn next_spec(p: ShutdownPolicy, phase: ShutdownPhase, s: ChildStatus) -> (
    ShutdownPhase,
    ShutdownAction,
) {
    match phase {
        ShutdownPhase::GracePeriod => match s {
            ChildStatus::Exited => (ShutdownPhase::Exited, ShutdownAction::Done),
            ChildStatus::Running { elapsed_ms } => if elapsed_ms >= p.grace_ms {
                (ShutdownPhase::Forced, ShutdownAction::ForceKill)
            } else {
                (ShutdownPhase::GracePeriod, ShutdownAction::Sleep { ms: p.poll_ms })
            },
            ChildStatus::QueryFailed => (ShutdownPhase::Forced, ShutdownAction::ForceKill),
        },
        ShutdownPhase::Forced => (ShutdownPhase::Exited, ShutdownAction::Done),
        ShutdownPhase::Exited => (ShutdownPhase::Exited, ShutdownAction::Done),
    }
}

/// The phase reached from `phase` after the reports `events`.
pub open spec fn run_phase(p: ShutdownPolicy, phase: ShutdownPhase, events: Seq<ChildStatus>) -> ShutdownPhase
    decreases events.len(),
{
    if events.len() == 0 {
        phase
    } else {
        run_phase(p, next_spec(p, phase, events[0]).0, events.drop_first())
    }
}

/// How many forced kills are asked for from `phase` on the reports `events`.
pub open spec fn run_kills(p: ShutdownPolicy, phase: ShutdownPhase, events: Seq<ChildStatus>) -> nat
    decreases events.len(),
{
    if events.len() == 0 {
        0
    } else {
        let (q, a) = next_spec(p, phase, events[0]);
        (if a == ShutdownAction::ForceKill { 1nat } else { 0nat }) + run_kills(
            p,
            q,
            events.drop_first(),
        )
    }
}

/// The forced kills of a whole shutdown: the first action and all that follow.
pub open spec fn shutdown_kills(p: ShutdownPolicy, events: Seq<ChildStatus>) -> nat {
    let (q, a) = begin_spec(p);
    (if a == ShutdownAction::ForceKill { 1nat } else { 0nat }) + run_kills(p, q, events)
}

/// A shutdown in progress.
pub struct ShutdownController {
    pub policy: ShutdownPolicy,
    pub phase: ShutdownPhase,
}

impl ShutdownController {
    /// Starts a shutdown: the cooperative request, or at once a forced kill.
    pub fn begin(policy: ShutdownPolicy) -> (r: (ShutdownController, ShutdownAction))
        ensures
            r.0.policy == policy,
            (r.0.phase, r.1) == begin_spec(policy),
    {
        match policy.strategy {
            TerminateStrategy::Cooperative => (
                ShutdownController { policy, phase: ShutdownPhase::GracePeriod },
                ShutdownAction::SendTerminate,
            ),
            TerminateStrategy::ForcedOnly => (
                ShutdownController { policy, phase: ShutdownPhase::Forced },
                ShutdownAction::ForceKill,
            ),
        }
    }

    /// Takes in the report `status` and says what to do next.
    pub fn observe(&mut self, status: ChildStatus) -> (r: ShutdownAction)
        ensures
            final(self).policy == old(self).policy,
            (final(self).phase, r) == next_spec(old(self).policy, old(self).phase, status),
    {
        match self.phase {
            ShutdownPhase::GracePeriod => match status {
                ChildStatus::Exited => {
                    self.phase = ShutdownPhase::Exited;
                    ShutdownAction::Done
                },
                ChildStatus::Running { elapsed_ms } => {
                    if elapsed_ms >= self.policy.grace_ms {
                        self.phase = ShutdownPhase::Forced;
                        ShutdownAction::ForceKill
                    } else {
                        ShutdownAction::Sleep { ms: self.policy.poll_ms }
                    }
                },
                ChildStatus::QueryFailed => {
                    self.phase = ShutdownPhase::Forced;
                    ShutdownAction::ForceKill
                },
            },
            ShutdownPhase::Forced => {
                self.phase = ShutdownPhase::Exited;
                ShutdownAction::Done
            },
            ShutdownPhase::Exited => ShutdownAction::Done,
        }
    }

    /// Whether the shutdown has nothing left to do.
    pub fn is_finished(&self) -> (r: bool)
        ensures
            r == (self.phase == ShutdownPhase::Exited),
    {
        self.phase == ShutdownPhase::Exited
    }
}

/// Once the child is gone, further reports change nothing and ask for no
/// kill: terminating an exited child again neither fails nor waits.
pub proof fn lemma_exited_is_final(p: ShutdownPolicy, events: Seq<ChildStatus>)
    ensures
        run_phase(p, ShutdownPhase::Exited, events) == ShutdownPhase::Exited,
        run_kills(p, ShutdownPhase::Exited, events) == 0,
        forall|s: ChildStatus|
            #[trigger] next_spec(p, ShutdownPhase::Exited, s) == (
                ShutdownPhase::Exited,
                ShutdownAction::Done,
            ),
    decreases events.len(),
{
    if events.len() > 0 {
        lemma_exited_is_final(p, events.drop_first());
    }
}

/// A shutdown asks for at most one forced kill, whatever is reported.
pub proof fn lemma_at_most_one_kill(p: ShutdownPolicy, events: Seq<ChildStatus>)
    ensures
        shutdown_kills(p, events) <= 1,
{
    lemma_grace_at_most_one(p, events);
    lemma_forced_no_more(p, events);
}

proof fn lemma_forced_no_more(p: ShutdownPolicy, events: Seq<ChildStatus>)
    ensures
        run_kills(p, ShutdownPhase::Forced, events) == 0,
{
    if events.len() > 0 {
        lemma_exited_is_final(p, events.drop_first());
    }
}

proof fn lemma_grace_at_most_one(p: ShutdownPolicy, events: Seq<ChildStatus>)
    ensures
        run_kills(p, ShutdownPhase::GracePeriod, events) <= 1,
    decreases events.len(),
{
    if events.len() > 0 {
        let rest = events.drop_first();
        lemma_grace_at_most_one(p, rest);
        lemma_forced_no_more(p, rest);
        lemma_exited_is_final(p, rest);
    }
}

/// With a cooperative shutdown, a child that is reported running only within
/// the grace period and then exited is never killed, and the shutdown ends.
pub proof fn lemma_exit_in_grace_never_killed(
    p: ShutdownPolicy,
    events: Seq<ChildStatus>,
    k: int,
)
    requires
        p.strategy == TerminateStrategy::Cooperative,
        0 <= k < events.len(),
        events[k] == ChildStatus::Exited,
        forall|i: int|
            0 <= i < k ==> (#[trigger] events[i] matches ChildStatus::Running { elapsed_ms }
                && elapsed_ms < p.grace_ms),
    ensures
        shutdown_kills(p, events) == 0,
        run_phase(p, ShutdownPhase::GracePeriod, events) == ShutdownPhase::Exited,
    decreases k,
{
    let rest = events.drop_first();
    if k == 0 {
        lemma_exited_is_final(p, rest);
    } else {
        assert(events[0] matches ChildStatus::Running { elapsed_ms } && elapsed_ms < p.grace_ms);
        assert forall|i: int| 0 <= i < k - 1 implies (#[trigger] rest[i] matches ChildStatus::Running {
            elapsed_ms,
        } && elapsed_ms < p.grace_ms) by {
            assert(rest[i] == events[i + 1]);
        }
        lemma_exit_in_grace_never_killed(p, rest, k - 1);
    }
}

/// With a cooperative shutdown, a child that keeps running past the grace
/// period gets exactly one forced kill, asked for on the first report at or
/// after the end of the grace period, and the shutdown ends with the report
/// that follows the kill.
pub proof fn lemma_ignored_request_killed_once(
    p: ShutdownPolicy,
    events: Seq<ChildStatus>,
    k: int,
)
    requires
        p.strategy == TerminateStrategy::Cooperative,
        0 <= k,
        k + 1 < events.len(),
        events[k] matches ChildStatus::Running { elapsed_ms } && elapsed_ms >= p.grace_ms,
        forall|i: int|
            0 <= i < k ==> (#[trigger] events[i] matches ChildStatus::Running { elapsed_ms }
                && elapsed_ms < p.grace_ms),
    ensures
        shutdown_kills(p, events.take(k)) == 0,
        shutdown_kills(p, events.take(k + 1)) == 1,
        shutdown_kills(p, events) == 1,
        run_phase(p, ShutdownPhase::GracePeriod, events) == ShutdownPhase::Exited,
    decreases k,
{
    let rest = events.drop_first();
    if k == 0 {
        assert(events.take(0).len() == 0);
        let one = events.take(1);
        assert(one.drop_first().len() == 0);
        assert(one[0] == events[0]);
        assert(next_spec(p, ShutdownPhase::GracePeriod, events[0]) == (
            ShutdownPhase::Forced,
            ShutdownAction::ForceKill,
        ));
        assert(run_kills(p, ShutdownPhase::Forced, one.drop_first()) == 0);
        assert(run_kills(p, ShutdownPhase::GracePeriod, one) == 1);
        lemma_forced_no_more(p, rest);
        assert(rest.len() > 0);
        lemma_exited_is_final(p, rest.drop_first());
        assert(run_phase(p, ShutdownPhase::Forced, rest) == ShutdownPhase::Exited);
    } else {
        assert(events[0] matches ChildStatus::Running { elapsed_ms } && elapsed_ms < p.grace_ms);
        assert forall|i: int| 0 <= i < k - 1 implies (#[trigger] rest[i] matches ChildStatus::Running {
            elapsed_ms,
        } && elapsed_ms < p.grace_ms) by {
            assert(rest[i] == events[i + 1]);
        }
        assert(rest[k - 1] == events[k]);
        lemma_ignored_request_killed_once(p, rest, k - 1);
        assert(events.take(k).drop_first() =~= rest.take(k - 1));
        assert(events.take(k + 1).drop_first() =~= rest.take(k));
        assert(events.take(k)[0] == events[0]);
        assert(events.take(k + 1)[0] == events[0]);
    }
}

} // verus!

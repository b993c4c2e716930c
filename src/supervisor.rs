//! The start sequence of the server, and the slot that holds its handle.
use vstd::prelude::*;
use crate::error::StartError;

verus! {

/// Where a start attempt stands.
#[derive(PartialEq, Eq, Structural, Clone, Copy, Debug)]
pub enum StartPhase {
    ResolvingConfig,
    OpeningLog,
    ProbingPort,
    Spawning,
    AwaitingHealth,
    /// The health wait failed; the child is being killed.
    CleaningUp,
    Started,
    Failed,
}

/// The outcome of the step the host just performed.
#[derive(Debug)]
pub enum StartEvent {
    Succeeded,
    Failed(StartError),
    /// The port probe's verdict.
    PortProbed { available: bool },
}

/// What the host does next.
#[derive(Debug)]
pub enum StartAction {
    ResolveConfig,
    OpenLog,
    ProbePort { port: u16 },
    Spawn,
    WaitHealth,
    /// Kill the child just spawned and wait for it.
    KillChild,
    /// The server is running: hand its handle to the host.
    Ready,
    /// The attempt failed with this error.
    Abort(StartError),
    /// The attempt is over; nothing to do.
    Idle,
}

/// A start attempt for a server on `port`.
#[derive(Debug)]
pub struct StartSequence {
    pub port: u16,
    pub phase: StartPhase,
    /// The health error reported once the child is gone.
    pub pending: Option<StartError>,
}

/// The action that a phase waits on, repeated when an event does not fit it.
pub open spec fn expected_action(s: StartSequence) -> StartAction {
    match s.phase {
        StartPhase::ResolvingConfig => StartAction::ResolveConfig,
        StartPhase::OpeningLog => StartAction::OpenLog,
        StartPhase::ProbingPort => StartAction::ProbePort { port: s.port },
        StartPhase::Spawning => StartAction::Spawn,
        StartPhase::AwaitingHealth => StartAction::WaitHealth,
        StartPhase::CleaningUp => StartAction::KillChild,
        _ => StartAction::Idle,
    }
}

pub open spec fn with_phase(s: StartSequence, phase: StartPhase) -> StartSequence {
    StartSequence { phase, ..s }
}

/// One transition of a start attempt.
pub open spec fn start_next(s: StartSequence, e: StartEvent) -> (StartSequence, StartAction) {
    match (s.phase, e) {
        (StartPhase::ResolvingConfig, StartEvent::Succeeded) => (
            with_phase(s, StartPhase::OpeningLog),
            StartAction::OpenLog,
        ),
        (StartPhase::OpeningLog, StartEvent::Succeeded) => (
            with_phase(s, StartPhase::ProbingPort),
            StartAction::ProbePort { port: s.port },
        ),
        (StartPhase::ProbingPort, StartEvent::PortProbed { available }) => if available {
            (with_phase(s, StartPhase::Spawning), StartAction::Spawn)
        } else {
            (
                with_phase(s, StartPhase::Failed),
                StartAction::Abort(StartError::PortInUse { port: s.port }),
            )
        },
        (StartPhase::Spawning, StartEvent::Succeeded) => (
            with_phase(s, StartPhase::AwaitingHealth),
            StartAction::WaitHealth,
        ),
        (StartPhase::AwaitingHealth, StartEvent::Succeeded) => (
            with_phase(s, StartPhase::Started),
            StartAction::Ready,
        ),
        (StartPhase::AwaitingHealth, StartEvent::Failed(err)) => (
            StartSequence { port: s.port, phase: StartPhase::CleaningUp, pending: Some(err) },
            StartAction::KillChild,
        ),
        (StartPhase::CleaningUp, StartEvent::PortProbed { .. }) => (s, StartAction::KillChild),
        (StartPhase::CleaningUp, _) => (
            StartSequence { port: s.port, phase: StartPhase::Failed, pending: None },
            StartAction::Abort(s.pending->0),
        ),
        (StartPhase::ResolvingConfig, StartEvent::Failed(err)) => (
            with_phase(s, StartPhase::Failed),
            StartAction::Abort(err),
        ),
        (StartPhase::OpeningLog, StartEvent::Failed(err)) => (
            with_phase(s, StartPhase::Failed),
            StartAction::Abort(err),
        ),
        (StartPhase::Spawning, StartEvent::Failed(err)) => (
            with_phase(s, StartPhase::Failed),
            StartAction::Abort(err),
        ),
        _ => (s, expected_action(s)),
    }
}

/// Whether any step of the run from `s` on `events` asks to spawn the server.
pub open spec fn spawn_requested(s: StartSequence, events: Seq<StartEvent>) -> bool
    decreases events.len(),
{
    if events.len() == 0 {
        false
    } else {
        let (t, a) = start_next(s, events[0]);
        a == StartAction::Spawn || spawn_requested(t, events.drop_first())
    }
}

pub open spec fn before_spawn(phase: StartPhase) -> bool {
    phase == StartPhase::ResolvingConfig || phase == StartPhase::OpeningLog || phase
        == StartPhase::ProbingPort || phase == StartPhase::Failed
}

/// A port found occupied ends the attempt with a port conflict that names
/// the port; and no run before the spawn asks to spawn the server unless a
/// probe has found the port free.
pub proof fn lemma_port_conflict_never_spawns(s: StartSequence, events: Seq<StartEvent>)
    requires
        before_spawn(s.phase),
        forall|i: int|
            0 <= i < events.len() ==> !(#[trigger] events[i] matches StartEvent::PortProbed {
                available,
            } && available),
    ensures
        s.phase == StartPhase::ProbingPort ==> start_next(
            s,
            StartEvent::PortProbed { available: false },
        ) == (with_phase(s, StartPhase::Failed), StartAction::Abort(
            StartError::PortInUse { port: s.port },
        )),
        !spawn_requested(s, events),
    decreases events.len(),
{
    if events.len() > 0 {
        let rest = events.drop_first();
        assert forall|i: int| 0 <= i < rest.len() implies !(#[trigger] rest[i] matches StartEvent::PortProbed {
            available,
        } && available) by {
            assert(rest[i] == events[i + 1]);
        }
        assert(!(events[0] matches StartEvent::PortProbed { available } && available));
        lemma_port_conflict_never_spawns(start_next(s, events[0]).0, rest);
    }
}

/// When the health wait fails, the child is killed first, and the attempt
/// then fails with the health error, whatever the kill reported.
pub proof fn lemma_health_failure_kills_child(
    s: StartSequence,
    err: StartError,
    kill_outcome: StartEvent,
)
    requires
        s.wf(),
        s.phase == StartPhase::AwaitingHealth,
        !(kill_outcome matches StartEvent::PortProbed { .. }),
    ensures
        start_next(s, StartEvent::Failed(err)).1 == StartAction::KillChild,
        start_next(start_next(s, StartEvent::Failed(err)).0, kill_outcome) == (
            StartSequence { port: s.port, phase: StartPhase::Failed, pending: None },
            StartAction::Abort(err),
        ),
{
}

impl StartSequence {
    /// Only a sequence that is cleaning up holds an error.
    pub open spec fn wf(&self) -> bool {
        (self.phase == StartPhase::CleaningUp) == self.pending.is_some()
    }

    /// A fresh attempt, which first resolves the configuration.
    pub fn new(port: u16) -> (r: (StartSequence, StartAction))
        ensures
            r.0.wf(),
            r.0.port == port,
            r.0.phase == StartPhase::ResolvingConfig,
            r.1 == StartAction::ResolveConfig,
    {
        (StartSequence { port, phase: StartPhase::ResolvingConfig, pending: None }, StartAction::ResolveConfig)
    }

    fn expected(&self) -> (r: StartAction)
        ensures
            r == expected_action(*self),
    {
        match self.phase {
            StartPhase::ResolvingConfig => StartAction::ResolveConfig,
            StartPhase::OpeningLog => StartAction::OpenLog,
            StartPhase::ProbingPort => StartAction::ProbePort { port: self.port },
            StartPhase::Spawning => StartAction::Spawn,
            StartPhase::AwaitingHealth => StartAction::WaitHealth,
            StartPhase::CleaningUp => StartAction::KillChild,
            _ => StartAction::Idle,
        }
    }

    /// Takes in the outcome of the last step and says what to do next.
    pub fn advance(&mut self, event: StartEvent) -> (r: StartAction)
        requires
            old(self).wf(),
        ensures
            final(self).wf(),
            (*final(self), r) == start_next(*old(self), event),
    {
        match (self.phase, event) {
            (StartPhase::ResolvingConfig, StartEvent::Succeeded) => {
                self.phase = StartPhase::OpeningLog;
                StartAction::OpenLog
            },
            (StartPhase::OpeningLog, StartEvent::Succeeded) => {
                self.phase = StartPhase::ProbingPort;
                StartAction::ProbePort { port: self.port }
            },
            (StartPhase::ProbingPort, StartEvent::PortProbed { available }) => {
                if available {
                    self.phase = StartPhase::Spawning;
                    StartAction::Spawn
                } else {
                    self.phase = StartPhase::Failed;
                    StartAction::Abort(StartError::PortInUse { port: self.port })
                }
            },
            (StartPhase::Spawning, StartEvent::Succeeded) => {
                self.phase = StartPhase::AwaitingHealth;
                StartAction::WaitHealth
            },
            (StartPhase::AwaitingHealth, StartEvent::Succeeded) => {
                self.phase = StartPhase::Started;
                StartAction::Ready
            },
            (StartPhase::AwaitingHealth, StartEvent::Failed(err)) => {
                self.phase = StartPhase::CleaningUp;
                self.pending = Some(err);
                StartAction::KillChild
            },
            (StartPhase::CleaningUp, StartEvent::PortProbed { .. }) => StartAction::KillChild,
            (StartPhase::CleaningUp, _) => {
                self.phase = StartPhase::Failed;
                match self.pending.take() {
                    Some(err) => StartAction::Abort(err),
                    None => StartAction::Idle,
                }
            },
            (StartPhase::ResolvingConfig, StartEvent::Failed(err)) => {
                self.phase = StartPhase::Failed;
                StartAction::Abort(err)
            },
            (StartPhase::OpeningLog, StartEvent::Failed(err)) => {
                self.phase = StartPhase::Failed;
                StartAction::Abort(err)
            },
            (StartPhase::Spawning, StartEvent::Failed(err)) => {
                self.phase = StartPhase::Failed;
                StartAction::Abort(err)
            },
            _ => self.expected(),
        }
    }
}

/// The slot for the running server's handle: at most one handle is held.
/// The host keeps it behind a lock, so that each check-then-set and
/// check-then-clear runs as one step.
pub struct HandleSlot<H> {
    handle: Option<H>,
}

impl<H> HandleSlot<H> {
    /// The handle held, if any.
    pub closed spec fn current(&self) -> Option<H> {
        self.handle
    }

    /// An empty slot.
    pub fn new() -> (r: HandleSlot<H>)
        ensures
            r.current() is None,
    {
        HandleSlot { handle: None }
    }

    /// Whether a handle is held.
    pub fn is_held(&self) -> (r: bool)
        ensures
            r == self.current() is Some,
    {
        self.handle.is_some()
    }

    /// Stores `h` when the slot is empty; hands it back otherwise, since a
    /// new server must not start while another handle is live.
    pub fn install(&mut self, h: H) -> (r: Result<(), H>)
        ensures
            old(self).current() is None ==> r is Ok && final(self).current() == Some(h),
            old(self).current() is Some ==> r == Err::<(), H>(h) && final(self).current()
                == old(self).current(),
    {
        if self.handle.is_some() {
            Err(h)
        } else {
            self.handle = Some(h);
            Ok(())
        }
    }

    /// Removes the handle to be stopped, leaving the slot empty. On an empty
    /// slot there is nothing to stop.
    pub fn take(&mut self) -> (r: Option<H>)
        ensures
            r == old(self).current(),
            final(self).current() is None,
    {
        self.handle.take()
    }
}

} // verus!

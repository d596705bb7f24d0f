//! Lifecycle state machine of the supervised child process.
//!
//! The host holds an `AppState` under a lock, together with the OS handle of
//! the child. Each command reads a plan from the state, performs the process
//! work the plan asks for, and commits the outcome back. Every child that is
//! stored gets a fresh ticket; the delayed verification of a launch carries
//! that ticket, and its result is dropped when the ticket no longer names the
//! stored child.
use vstd::prelude::*;

use crate::error::SupervisorError;
use crate::probe::{is_live, liveness, HttpOutcome};

verus! {

/// Seconds that a freshly spawned child is given before its liveness check.
pub const GRACE_PERIOD_SECS: u64 = 3;

/// Directory of the launch target, a sibling of the host's working directory.
pub const CORE_DIR: &'static str = "jarvis-core";

/// Entry point of the launch target inside `CORE_DIR`.
pub const CORE_ENTRY: &'static str = "main.py";

/// Where the supervised child stands.
#[derive(Debug, Clone, Copy, PartialEq, Eq, Structural)]
pub enum Phase {
    /// No child.
    Stopped,
    /// A child was spawned and its verification has not come back.
    Starting,
    /// A child was spawned and its verification succeeded.
    Running,
    /// A child was spawned and its verification failed; its handle is kept.
    Crashed,
}

/// What `start` has to do.
#[derive(Debug, Clone, Copy, PartialEq, Eq, Structural)]
pub enum StartPlan {
    /// A child exists: nothing is spawned, and the call succeeds.
    AlreadyRunning,
    /// No child exists: locate the launch target and spawn it.
    Launch,
}

/// What the host's launch attempt came to.
#[derive(Debug, Clone, PartialEq, Eq)]
pub enum LaunchOutcome {
    /// The launch target does not exist; nothing was spawned.
    ArtifactMissing,
    /// The operating system refused to create the process.
    SpawnFailed(String),
    /// The child process was created and its handle stored by the host.
    Spawned,
}

/// What `stop` has to do.
#[derive(Debug, Clone, Copy, PartialEq, Eq, Structural)]
pub enum StopPlan {
    /// No child exists: nothing is done, and the call succeeds.
    NothingToStop,
    /// Kill and reap the child stored under `ticket`.
    Terminate { ticket: u64 },
}

/// What the host's kill-and-reap attempt came to.
#[derive(Debug, Clone, PartialEq, Eq)]
pub enum TerminateOutcome {
    /// The child was killed (or had already exited) and was reaped.
    Terminated,
    /// The operating system refused to kill the child.
    Failed(String),
}

/// How a verification result was committed.
#[derive(Debug, Clone, Copy, PartialEq, Eq, Structural)]
pub enum VerifyCommit {
    /// The verified child is still stored and answered: it is running.
    Confirmed,
    /// The verified child is still stored and did not answer: it crashed.
    Crashed,
    /// The verified child is no longer stored: the result was dropped.
    Stale,
}

/// One linearized operation on the state, for reasoning about interleavings.
pub enum Event {
    /// A start, with what its launch attempt came to if one was made.
    Start(LaunchOutcome),
    /// The verification of the launch under a ticket, and whether it passed.
    Verify(u64, bool),
    /// A stop, with what its kill-and-reap attempt came to if one was made.
    Stop(TerminateOutcome),
}

/// Mathematical model of the supervisor's bookkeeping.
pub struct SupervisorView {
    /// Ticket of the stored child handle, if any.
    pub child: Option<u64>,
    /// Best-effort liveness flag reported by `is_running`.
    pub running: bool,
    /// Whether the stored child passed its verification.
    pub verified: bool,
    /// Ticket that the next stored child will get.
    pub next_ticket: u64,
}

impl SupervisorView {
    pub open spec fn initial() -> SupervisorView {
        SupervisorView { child: None, running: false, verified: false, next_ticket: 0 }
    }

    /// The running flag implies a stored child, a verified child is running,
    /// and the stored child's ticket was handed out before.
    pub open spec fn wf(self) -> bool {
        &&& (self.running ==> self.child.is_some())
        &&& (self.verified ==> self.running)
        &&& match self.child {
            Some(t) => t < self.next_ticket,
            None => true,
        }
    }

    pub open spec fn phase(self) -> Phase {
        match self.child {
            None => Phase::Stopped,
            Some(_) => if !self.running {
                Phase::Crashed
            } else if self.verified {
                Phase::Running
            } else {
                Phase::Starting
            },
        }
    }

    pub open spec fn can_launch(self) -> bool {
        self.next_ticket < u64::MAX
    }

    pub open spec fn start_plan(self) -> StartPlan {
        if self.child.is_some() {
            StartPlan::AlreadyRunning
        } else {
            StartPlan::Launch
        }
    }

    /// A child stored under a fresh ticket, tentatively running.
    pub open spec fn launched(self) -> SupervisorView {
        SupervisorView {
            child: Some(self.next_ticket),
            running: true,
            verified: false,
            next_ticket: (self.next_ticket + 1) as u64,
        }
    }

    /// No child, not running; tickets already handed out stay used.
    pub open spec fn stopped(self) -> SupervisorView {
        SupervisorView { child: None, running: false, verified: false, next_ticket: self.next_ticket }
    }

    pub open spec fn verify_commit(self, ticket: u64, reachable: bool) -> VerifyCommit {
        if self.child != Some(ticket) {
            VerifyCommit::Stale
        } else if reachable {
            VerifyCommit::Confirmed
        } else {
            VerifyCommit::Crashed
        }
    }

    /// The verification of the launch under `ticket` committed: it takes
    /// effect only while that launch's child is still stored.
    pub open spec fn verification_applied(self, ticket: u64, reachable: bool) -> SupervisorView {
        if self.child != Some(ticket) {
            self
        } else if reachable {
            SupervisorView { verified: self.running, ..self }
        } else {
            SupervisorView { running: false, verified: false, ..self }
        }
    }

    pub open spec fn stop_plan(self) -> StopPlan {
        match self.child {
            None => StopPlan::NothingToStop,
            Some(t) => StopPlan::Terminate { ticket: t },
        }
    }

    /// The state after one operation, as the commands perform it under the
    /// lock (a launch is attempted only when the plan says so).
    pub open spec fn step(self, e: Event) -> SupervisorView {
        match e {
            Event::Start(o) => if self.child.is_none() && self.can_launch() && o
                == LaunchOutcome::Spawned {
                self.launched()
            } else {
                self
            },
            Event::Verify(t, reachable) => self.verification_applied(t, reachable),
            Event::Stop(o) => if self.child.is_some() && o == TerminateOutcome::Terminated {
                self.stopped()
            } else {
                self
            },
        }
    }

    /// The state after a sequence of operations, in order.
    pub open spec fn run(self, events: Seq<Event>) -> SupervisorView
        decreases events.len(),
    {
        if events.len() == 0 {
            self
        } else {
            self.step(events[0]).run(events.drop_first())
        }
    }
}

/// The supervisor's shared bookkeeping: which child is stored and whether it
/// is believed to be running.
pub struct AppState {
    child: Option<u64>,
    running: bool,
    verified: bool,
    next_ticket: u64,
}

impl View for AppState {
    type V = SupervisorView;

    closed spec fn view(&self) -> SupervisorView {
        SupervisorView {
            child: self.child,
            running: self.running,
            verified: self.verified,
            next_ticket: self.next_ticket,
        }
    }
}

impl AppState {
    /// The state at application start: no child, not running.
    pub fn new() -> (r: AppState)
        ensures
            r@ == SupervisorView::initial(),
            r@.wf(),
    {
        AppState { child: None, running: false, verified: false, next_ticket: 0 }
    }

    /// The bookkeeping flag; no network call.
    pub fn is_running(&self) -> (r: bool)
        ensures
            r == self@.running,
    {
        self.running
    }

    /// Whether a child handle is stored.
    pub fn has_child(&self) -> (r: bool)
        ensures
            r == self@.child.is_some(),
    {
        self.child.is_some()
    }

    pub fn phase(&self) -> (r: Phase)
        ensures
            r == self@.phase(),
    {
        match self.child {
            None => Phase::Stopped,
            Some(_) => if !self.running {
                Phase::Crashed
            } else if self.verified {
                Phase::Running
            } else {
                Phase::Starting
            },
        }
    }

    /// Whether a fresh ticket is left for another launch.
    pub fn can_launch(&self) -> (r: bool)
        ensures
            r == self@.can_launch(),
    {
        self.next_ticket < u64::MAX
    }

    /// First half of `start`: whether a launch is needed.
    pub fn begin_start(&self) -> (r: StartPlan)
        ensures
            r == self@.start_plan(),
    {
        if self.child.is_some() {
            StartPlan::AlreadyRunning
        } else {
            StartPlan::Launch
        }
    }

    /// Second half of `start`: records what the launch attempt came to, and
    /// returns the ticket of a stored child, whose verification is then due.
    /// A missing target or a refused spawn leaves the state as it was.
    pub fn commit_launch(&mut self, outcome: LaunchOutcome) -> (r: Result<u64, SupervisorError>)
        requires
            old(self)@.wf(),
            old(self)@.child.is_none(),
            old(self)@.can_launch(),
        ensures
            final(self)@.wf(),
            final(self)@ == old(self)@.step(Event::Start(outcome)),
            match outcome {
                LaunchOutcome::ArtifactMissing => r == Err::<u64, SupervisorError>(
                    SupervisorError::MissingArtifact,
                ),
                LaunchOutcome::SpawnFailed(m) => r == Err::<u64, SupervisorError>(
                    SupervisorError::SpawnError(m),
                ),
                LaunchOutcome::Spawned => {
                    &&& r == Ok::<u64, SupervisorError>(old(self)@.next_ticket)
                    &&& final(self)@ == old(self)@.launched()
                },
            },
            !(outcome is Spawned) ==> final(self)@ == old(self)@,
    {
        match outcome {
            LaunchOutcome::ArtifactMissing => Err(SupervisorError::MissingArtifact),
            LaunchOutcome::SpawnFailed(m) => Err(SupervisorError::SpawnError(m)),
            LaunchOutcome::Spawned => {
                let ticket = self.next_ticket;
                self.child = Some(ticket);
                self.running = true;
                self.verified = false;
                self.next_ticket = ticket + 1;
                Ok(ticket)
            },
        }
    }

    /// Commits the delayed verification of the launch under `ticket`. The
    /// result is dropped when that child is no longer stored, so it never
    /// revives the flag after a `stop`.
    pub fn commit_verification(&mut self, ticket: u64, reachable: bool) -> (r: VerifyCommit)
        requires
            old(self)@.wf(),
        ensures
            final(self)@.wf(),
            final(self)@ == old(self)@.step(Event::Verify(ticket, reachable)),
            final(self)@ == old(self)@.verification_applied(ticket, reachable),
            r == old(self)@.verify_commit(ticket, reachable),
    {
        if self.child != Some(ticket) {
            VerifyCommit::Stale
        } else if reachable {
            self.verified = self.running;
            VerifyCommit::Confirmed
        } else {
            self.running = false;
            self.verified = false;
            VerifyCommit::Crashed
        }
    }

    /// Commits the liveness check made after the grace period of the launch
    /// under `ticket`: the child counts as verified when the check succeeded.
    pub fn commit_liveness(&mut self, ticket: u64, outcome: &HttpOutcome) -> (r: VerifyCommit)
        requires
            old(self)@.wf(),
        ensures
            final(self)@.wf(),
            final(self)@ == old(self)@.verification_applied(ticket, is_live(*outcome)),
            r == old(self)@.verify_commit(ticket, is_live(*outcome)),
    {
        let reachable = liveness(outcome);
        self.commit_verification(ticket, reachable)
    }

    /// First half of `stop`: whether there is a child to terminate.
    pub fn begin_stop(&self) -> (r: StopPlan)
        ensures
            r == self@.stop_plan(),
    {
        match self.child {
            None => StopPlan::NothingToStop,
            Some(t) => StopPlan::Terminate { ticket: t },
        }
    }

    /// Second half of `stop`: records what the kill-and-reap attempt came to.
    /// A refused kill keeps the handle, so that the stop can be retried.
    pub fn commit_stop(&mut self, outcome: TerminateOutcome) -> (r: Result<(), SupervisorError>)
        requires
            old(self)@.wf(),
            old(self)@.child.is_some(),
        ensures
            final(self)@.wf(),
            final(self)@ == old(self)@.step(Event::Stop(outcome)),
            match outcome {
                TerminateOutcome::Terminated => {
                    &&& r == Ok::<(), SupervisorError>(())
                    &&& final(self)@ == old(self)@.stopped()
                },
                TerminateOutcome::Failed(m) => {
                    &&& r == Err::<(), SupervisorError>(SupervisorError::TerminateError(m))
                    &&& final(self)@ == old(self)@
                },
            },
    {
        match outcome {
            TerminateOutcome::Terminated => {
                self.child = None;
                self.running = false;
                self.verified = false;
                Ok(())
            },
            TerminateOutcome::Failed(m) => Err(SupervisorError::TerminateError(m)),
        }
    }
}

/// One operation keeps the bookkeeping well formed.
proof fn lemma_step_wf(s: SupervisorView, e: Event)
    requires
        s.wf(),
    ensures
        s.step(e).wf(),
{
}

/// A ticket that was handed out and is not stored is never stored again.
proof fn lemma_run_keeps_retired(s: SupervisorView, events: Seq<Event>, ticket: u64)
    requires
        s.wf(),
        s.child != Some(ticket),
        ticket < s.next_ticket,
    ensures
        s.run(events).wf(),
        s.run(events).child != Some(ticket),
        ticket < s.run(events).next_ticket,
    decreases events.len(),
{
    if events.len() > 0 {
        lemma_step_wf(s, events[0]);
        lemma_run_keeps_retired(s.step(events[0]), events.drop_first(), ticket);
    }
}

/// Starting twice without a stop in between spawns at most one child: once a
/// start has stored a child, a second start plans no launch, whatever it is
/// handed, and changes nothing.
pub proof fn start_twice_spawns_once(s: SupervisorView, first: LaunchOutcome, second: LaunchOutcome)
    requires
        s.wf(),
    ensures
        s.step(Event::Start(first)).child.is_some() ==> {
            &&& s.step(Event::Start(first)).start_plan() == StartPlan::AlreadyRunning
            &&& s.step(Event::Start(first)).step(Event::Start(second)) == s.step(
                Event::Start(first),
            )
        },
{
}

/// Stopping when no child exists succeeds and changes nothing; in particular
/// a second stop after a successful one does.
pub proof fn stop_without_child_is_noop(s: SupervisorView, o: TerminateOutcome)
    requires
        s.wf(),
    ensures
        s.child.is_none() ==> s.stop_plan() == StopPlan::NothingToStop && s.step(Event::Stop(o))
            == s,
        s.stopped().stop_plan() == StopPlan::NothingToStop,
        s.stopped().step(Event::Stop(o)) == s.stopped(),
{
}

/// After a successful stop the flag is down, no handle is left, and a new
/// start plans a launch.
pub proof fn stop_then_start_is_permitted(s: SupervisorView)
    requires
        s.wf(),
        s.child.is_some(),
    ensures
        s.step(Event::Stop(TerminateOutcome::Terminated)) == s.stopped(),
        s.stopped().wf(),
        !s.stopped().running,
        s.stopped().phase() == Phase::Stopped,
        s.stopped().start_plan() == StartPlan::Launch,
        s.stopped().can_launch() == s.can_launch(),
{
}

/// A verification whose child was stopped is stale from then on: whatever
/// operations follow the stop, committing it changes nothing, and in
/// particular never raises the running flag again.
pub proof fn verification_after_stop_is_stale(
    s: SupervisorView,
    ticket: u64,
    reachable: bool,
    later: Seq<Event>,
)
    requires
        s.wf(),
        s.child == Some(ticket),
    ensures
        s.stopped().run(later).verify_commit(ticket, reachable) == VerifyCommit::Stale,
        s.stopped().run(later).verification_applied(ticket, reachable) == s.stopped().run(later),
{
    lemma_run_keeps_retired(s.stopped(), later, ticket);
}

/// Every interleaving of starts, verifications and stops, as the lock orders
/// them, keeps the bookkeeping well formed: the flag is never up without a
/// stored child, and no stored child carries a ticket that was not handed out.
pub proof fn interleavings_keep_invariant(s: SupervisorView, events: Seq<Event>)
    requires
        s.wf(),
    ensures
        s.run(events).wf(),
        s.run(events).running ==> s.run(events).child.is_some(),
        s.run(events).phase() == Phase::Stopped <==> s.run(events).child.is_none(),
        !s.run(events).running <==> (s.run(events).phase() == Phase::Stopped || s.run(
            events,
        ).phase() == Phase::Crashed),
    decreases events.len(),
{
    if events.len() > 0 {
        lemma_step_wf(s, events[0]);
        interleavings_keep_invariant(s.step(events[0]), events.drop_first());
    }
}

} // verus!

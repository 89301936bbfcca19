//! The process supervisor: the single worker slot and its transitions.
//!
//! The supervisor owns at most one live worker at a time, identified by a
//! generation number so that a relay belonging to an old, already
//! replaced worker can never clear a newer one. Every transition here is
//! a single atomic step on the slot; the unverified shell performs the
//! actual spawning and killing between the steps, holding the slot's
//! exclusive lock only around the steps themselves.

use vstd::prelude::*;

use crate::command::ActionCommand;
use crate::command::wire_line;
use crate::events::LogEvent;
use crate::events::LogLevel;

verus! {

/// How an attempted spawn of the worker ended.
#[derive(Clone, Debug)]
pub enum SpawnOutcome {
    /// A new worker process came into existence.
    Spawned,
    /// The worker's entry point file does not exist at this path.
    EntryMissing(String),
    /// The operating system refused the spawn, with its error text.
    OsFailure(String),
}

/// Why a worker could not be started.
#[derive(Clone, Debug)]
pub enum SpawnError {
    /// The worker's entry point file does not exist at this path.
    EntryMissing(String),
    /// The operating system refused the spawn, with its error text.
    Os(String),
}

/// The failure text of a spawn error.
pub open spec fn spawn_error_text(e: SpawnError) -> Seq<char> {
    match e {
        SpawnError::EntryMissing(path) => "worker entry not found at "@ + path@,
        SpawnError::Os(detail) => "failed to spawn worker: "@ + detail@,
    }
}

impl SpawnError {
    /// Render the failure as a message for a log event.
    pub fn message(&self) -> (m: String)
        ensures
            m@ == spawn_error_text(*self),
    {
        match self {
            SpawnError::EntryMissing(path) => {
                let mut m = String::from_str("worker entry not found at ");
                m.append(path.as_str());
                m
            },
            SpawnError::Os(detail) => {
                let mut m = String::from_str("failed to spawn worker: ");
                m.append(detail.as_str());
                m
            },
        }
    }
}

/// What a `start` request requires of the shell.
#[derive(Clone, Copy, Debug, PartialEq, Eq, Structural)]
pub enum StartDecision {
    /// A worker is already live: starting again is a no-op.
    AlreadyRunning,
    /// No worker is live: the shell must attempt a spawn.
    NeedSpawn,
}

/// The supervisor's state: the generation of the live worker, if any,
/// and the generation the next spawn will receive.
pub struct Supervisor {
    pub slot: Option<u64>,
    pub next_gen: u64,
}

impl Supervisor {
    /// Generations are handed out in order: a live worker's generation
    /// is always below the next one to be issued.
    pub open spec fn wf(self) -> bool {
        match self.slot {
            Some(g) => g < self.next_gen,
            None => true,
        }
    }

    /// Whether a worker is currently live.
    pub open spec fn running(self) -> bool {
        self.slot is Some
    }

    /// A fresh supervisor: no worker, first generation still unissued.
    pub fn new() -> (s: Supervisor)
        ensures
            s.wf(),
            !s.running(),
            s.next_gen == 0,
    {
        Supervisor { slot: None, next_gen: 0 }
    }

    /// Whether a worker is currently live.
    pub fn worker_running(&self) -> (r: bool)
        ensures
            r == self.running(),
    {
        self.slot.is_some()
    }

    /// The first step of `start`: a live worker makes it a no-op,
    /// otherwise the shell must spawn.
    pub fn start_decision(&self) -> (d: StartDecision)
        ensures
            d == StartDecision::NeedSpawn <==> !self.running(),
    {
        if self.slot.is_some() {
            StartDecision::AlreadyRunning
        } else {
            StartDecision::NeedSpawn
        }
    }

    /// The completing step of `start`, after the shell attempted the
    /// spawn: install the new worker, or surface the spawn error to the
    /// caller and leave the slot empty.
    pub fn start_finish(&mut self, outcome: &SpawnOutcome) -> (r: Result<u64, SpawnError>)
        requires
            old(self).wf(),
            !old(self).running(),
            old(self).next_gen < u64::MAX,
        ensures
            final(self).wf(),
            *final(self) == spec_start(*old(self), outcome is Spawned).0,
            outcome is Spawned ==> {
                &&& final(self).slot == Some(old(self).next_gen)
                &&& final(self).next_gen == old(self).next_gen + 1
                &&& r == Ok::<u64, SpawnError>(old(self).next_gen)
            },
            !(outcome is Spawned) ==> *final(self) == *old(self),
            outcome matches SpawnOutcome::EntryMissing(p) ==> r matches Err(e)
                && e matches SpawnError::EntryMissing(q) && q@ == p@,
            outcome matches SpawnOutcome::OsFailure(d) ==> r matches Err(e)
                && e matches SpawnError::Os(q) && q@ == d@,
    {
        match outcome {
            SpawnOutcome::Spawned => {
                let gen = self.next_gen;
                self.slot = Some(gen);
                self.next_gen = gen + 1;
                Ok(gen)
            },
            SpawnOutcome::EntryMissing(path) => Err(SpawnError::EntryMissing(path.clone())),
            SpawnOutcome::OsFailure(detail) => Err(SpawnError::Os(detail.clone())),
        }
    }

    /// The first step of `restart`: atomically take the live worker out
    /// of the slot, handing its generation to the shell to kill.
    pub fn take_worker(&mut self) -> (killed: Option<u64>)
        requires
            old(self).wf(),
        ensures
            final(self).wf(),
            final(self).slot is None,
            final(self).next_gen == old(self).next_gen,
            killed == old(self).slot,
    {
        let killed = self.slot;
        self.slot = None;
        killed
    }

    /// The completing step of `restart`: install the new worker, or —
    /// since restart must never crash its triggering context — leave the
    /// slot empty and hand back the one error event to deliver.
    pub fn restart_finish(&mut self, outcome: &SpawnOutcome) -> (log: Option<LogEvent>)
        requires
            old(self).wf(),
            !old(self).running(),
            old(self).next_gen < u64::MAX,
        ensures
            final(self).wf(),
            *final(self) == spec_restart(*old(self), outcome is Spawned).0,
            outcome is Spawned ==> {
                &&& final(self).slot == Some(old(self).next_gen)
                &&& final(self).next_gen == old(self).next_gen + 1
                &&& log is None
            },
            outcome matches SpawnOutcome::EntryMissing(p) ==> (log matches Some(e)
                && *final(self) == *old(self)
                && e.is_event(LogLevel::Error, "worker entry not found at "@ + p@)),
            outcome matches SpawnOutcome::OsFailure(d) ==> (log matches Some(e)
                && *final(self) == *old(self)
                && e.is_event(LogLevel::Error, "failed to spawn worker: "@ + d@)),
            final(self).running() <==> log is None,
    {
        match self.start_finish(outcome) {
            Ok(_) => None,
            Err(e) => Some(LogEvent::new(LogLevel::Error, e.message())),
        }
    }

    /// A relay observed this generation's worker terminate: clear the
    /// slot, but only if it still holds that very generation.
    pub fn clear_on_exit(&mut self, gen: u64) -> (cleared: bool)
        requires
            old(self).wf(),
        ensures
            final(self).wf(),
            final(self).next_gen == old(self).next_gen,
            cleared == (old(self).slot == Some(gen)),
            cleared ==> final(self).slot is None,
            !cleared ==> *final(self) == *old(self),
    {
        match self.slot {
            Some(current) => {
                if current == gen {
                    self.slot = None;
                    true
                } else {
                    false
                }
            },
            None => false,
        }
    }

    /// The command sender: with a live worker, the wire line to write to
    /// its input stream; with none, nothing at all — the command is
    /// dropped silently and the caller still succeeds.
    pub fn send(&self, action: &ActionCommand) -> (w: Option<String>)
        ensures
            self.running() ==> (w matches Some(line) && line@ == wire_line(action.name@)),
            !self.running() ==> w is None,
    {
        if self.slot.is_some() {
            Some(action.encode())
        } else {
            None
        }
    }
}

/// The event to deliver when a wire line could not be written: the
/// failure is logged, never propagated and never retried.
pub fn write_failure_event(detail: &str) -> (e: LogEvent)
    ensures
        e.is_event(LogLevel::Error, "failed to write command: "@ + detail@),
{
    let mut m = String::from_str("failed to write command: ");
    m.append(detail);
    LogEvent::new(LogLevel::Error, m)
}

/// One `start` transition, abstractly: a live worker makes it a no-op,
/// otherwise a successful spawn installs the next generation. The second
/// component counts the processes the step brought into existence.
pub open spec fn spec_start(s: Supervisor, spawn_ok: bool) -> (Supervisor, nat) {
    if s.running() {
        (s, 0)
    } else if spawn_ok {
        (Supervisor { slot: Some(s.next_gen), next_gen: (s.next_gen + 1) as u64 }, 1)
    } else {
        (s, 0)
    }
}

/// A whole sequence of `start` transitions, with the total count of
/// processes spawned along the way.
pub open spec fn spec_run_starts(s: Supervisor, spawns_ok: Seq<bool>) -> (Supervisor, nat)
    decreases spawns_ok.len(),
{
    if spawns_ok.len() == 0 {
        (s, 0)
    } else {
        let (s1, n1) = spec_start(s, spawns_ok[0]);
        let (s2, n2) = spec_run_starts(s1, spawns_ok.drop_first());
        (s2, n1 + n2)
    }
}

/// How many workers are live in a state: zero or one, by construction.
pub open spec fn live_count(s: Supervisor) -> nat {
    if s.running() {
        1
    } else {
        0
    }
}

/// Idempotence of `start`: across any sequence of start attempts with no
/// intervening termination, at most one worker process ever comes into
/// existence, and none at all once one is live — so at most one worker
/// is ever alive.
pub proof fn lemma_start_at_most_one_worker(s: Supervisor, spawns_ok: Seq<bool>)
    ensures
        spec_run_starts(s, spawns_ok).1 + live_count(s) <= 1,
        live_count(spec_run_starts(s, spawns_ok).0) <= 1,
    decreases spawns_ok.len(),
{
    if spawns_ok.len() > 0 {
        let (s1, n1) = spec_start(s, spawns_ok[0]);
        lemma_start_at_most_one_worker(s1, spawns_ok.drop_first());
    }
}

/// One full `restart`, abstractly: the old worker (if any) is taken and
/// killed, then a spawn is attempted. The second component counts the
/// error events delivered.
pub open spec fn spec_restart(s: Supervisor, spawn_ok: bool) -> (Supervisor, nat) {
    let taken = Supervisor { slot: None, next_gen: s.next_gen };
    if spawn_ok {
        (spec_start(taken, true).0, 0)
    } else {
        (taken, 1)
    }
}

/// `restart` ends in exactly one of two observable states: a new worker
/// live with nothing logged, or no worker live and exactly one error
/// event — never a reference to the killed process.
pub proof fn lemma_restart_two_outcomes(s: Supervisor, spawn_ok: bool)
    requires
        s.wf(),
    ensures
        ({
            let (s2, errors) = spec_restart(s, spawn_ok);
            &&& s2.running() ==> errors == 0 && s2.slot == Some(s.next_gen)
            &&& !s2.running() ==> errors == 1
            &&& s2.slot != s.slot || s.slot is None
        }),
{
}

} // verus!

//! Lifecycle of the adapter process and bookkeeping of requests in flight.
//!
//! The supervisor is a state machine. Its owner feeds it what happened (a
//! caller wants the process, the process announced readiness, it died, a
//! reply arrived) and carries out what the machine answers. Every transition
//! is a spec function on [`State`], so that sequences of calls can be
//! reasoned about in proofs.

use std::collections::HashMap;
use vstd::prelude::*;

verus! {

broadcast use vstd::std_specs::hash::group_hash_axioms;

/// Where the adapter process is in its life.
#[derive(Clone, Copy, Debug, PartialEq, Eq, Structural)]
pub enum Phase {
    /// No process has been started yet.
    NotStarted,
    /// A process was spawned and has not yet announced readiness.
    Starting,
    /// The process announced readiness and accepts commands.
    Ready,
    /// The last process ended, or never became ready.
    Terminated,
}

/// What a caller of [`Supervisor::ensure_running`] has to do next.
#[derive(Clone, Copy, Debug, PartialEq, Eq, Structural)]
pub enum Launch {
    /// The caller owns the start: spawn the process and report the outcome.
    Spawn,
    /// Another caller is starting the process: wait for its readiness.
    AwaitReady,
    /// The process is ready: go on.
    Proceed,
}

/// The mathematical state of a supervisor.
pub ghost struct State<W> {
    /// The phase of the adapter process.
    pub phase: Phase,
    /// The number of the process that was started last, zero before the
    /// first start. What an older process still reports is told apart by
    /// it.
    pub generation: u64,
    /// The identifier that the next command gets.
    pub next_id: u64,
    /// The commands in flight, each with its waiter.
    pub pending: Map<u64, W>,
}

/// What holds of every reachable state: a command is in flight only while
/// the process is ready, so none outlives a termination.
pub open spec fn inv<W>(s: State<W>) -> bool {
    s.phase != Phase::Ready ==> s.pending == Map::<u64, W>::empty()
}

/// The state before anything happened.
pub open spec fn initial<W>() -> State<W> {
    State { phase: Phase::NotStarted, generation: 0, next_id: 1, pending: Map::empty() }
}

/// The answer of `ensure_running` in each phase.
pub open spec fn launch_of(phase: Phase) -> Launch {
    match phase {
        Phase::NotStarted | Phase::Terminated => Launch::Spawn,
        Phase::Starting => Launch::AwaitReady,
        Phase::Ready => Launch::Proceed,
    }
}

/// The number that follows `n`: a counter wraps at the top.
pub open spec fn following(n: u64) -> u64 {
    if n == u64::MAX {
        0
    } else {
        (n + 1) as u64
    }
}

/// The state after `ensure_running`: a supervisor without a live process is
/// starting one, the next in number.
pub open spec fn after_ensure<W>(s: State<W>) -> State<W> {
    match s.phase {
        Phase::NotStarted | Phase::Terminated => State {
            phase: Phase::Starting,
            generation: following(s.generation),
            ..s
        },
        _ => s,
    }
}

/// Whether the process with this number is the one that is starting.
pub open spec fn is_starting<W>(s: State<W>, generation: u64) -> bool {
    s.phase == Phase::Starting && s.generation == generation
}

/// Whether the process with this number is the one that is alive: starting
/// or ready.
pub open spec fn is_alive<W>(s: State<W>, generation: u64) -> bool {
    (s.phase == Phase::Starting || s.phase == Phase::Ready) && s.generation == generation
}

/// The state after the start of the process with this number failed, by a
/// failed spawn or by a readiness signal that did not come in time: only
/// the supervisor that is starting this process changes.
pub open spec fn after_start_failed<W>(s: State<W>, generation: u64) -> State<W> {
    if is_starting(s, generation) {
        State { phase: Phase::Terminated, ..s }
    } else {
        s
    }
}

/// The state after a readiness signal of the process with this number: only
/// the supervisor that is starting this process changes.
pub open spec fn after_ready<W>(s: State<W>, generation: u64) -> State<W> {
    if is_starting(s, generation) {
        State { phase: Phase::Ready, ..s }
    } else {
        s
    }
}

/// The state after the process with this number ended: where it was the
/// one alive, nothing is in flight any more. The end of an older process
/// changes nothing.
pub open spec fn after_terminated<W>(s: State<W>, generation: u64) -> State<W> {
    if is_alive(s, generation) {
        State { phase: Phase::Terminated, pending: Map::empty(), ..s }
    } else {
        s
    }
}

/// The waiters that the end of the process with this number orphans.
pub open spec fn orphans_of<W>(s: State<W>, generation: u64) -> Map<u64, W> {
    if is_alive(s, generation) {
        s.pending
    } else {
        Map::empty()
    }
}

/// The state after a new command was registered with `waiter`: only a ready
/// supervisor takes one.
pub open spec fn after_begin<W>(s: State<W>, waiter: W) -> State<W> {
    if s.phase == Phase::Ready {
        State {
            next_id: following(s.next_id),
            pending: s.pending.insert(s.next_id, waiter),
            ..s
        }
    } else {
        s
    }
}

/// The state after the command `id` was taken out of flight.
pub open spec fn after_release<W>(s: State<W>, id: u64) -> State<W> {
    State { pending: s.pending.remove(id), ..s }
}

/// A command that was registered: its identifier, and the waiter of an older
/// command that had the same identifier, which can only be after the counter
/// wrapped.
pub struct Ticket<W> {
    /// The identifier of the new command.
    pub id: u64,
    /// The waiter that the new one replaced, if any.
    pub displaced: Option<W>,
}

/// The supervisor of one adapter process: its phase, the counter of command
/// identifiers, and one waiter for each command in flight.
pub struct Supervisor<W> {
    phase: Phase,
    generation: u64,
    next_id: u64,
    pending: HashMap<u64, W>,
}

impl<W> View for Supervisor<W> {
    type V = State<W>;

    closed spec fn view(&self) -> State<W> {
        State {
            phase: self.phase,
            generation: self.generation,
            next_id: self.next_id,
            pending: self.pending@,
        }
    }
}

impl<W> Supervisor<W> {
    /// A supervisor that has started nothing: identifiers start at 1.
    pub fn new() -> (s: Self)
        ensures
            s@ == initial::<W>(),
            inv(s@),
    {
        Supervisor { phase: Phase::NotStarted, generation: 0, next_id: 1, pending: HashMap::new() }
    }

    /// The phase of the adapter process.
    pub fn phase(&self) -> (phase: Phase)
        ensures
            phase == self@.phase,
    {
        self.phase
    }

    /// The number of the process that was started last, zero before the
    /// first start. Whoever reads the output of a process, or watches its
    /// start, reports what happens under the number of that process.
    pub fn generation(&self) -> (generation: u64)
        ensures
            generation == self@.generation,
    {
        self.generation
    }

    /// Whether the command `id` is in flight.
    pub fn is_pending(&self, id: u64) -> (found: bool)
        ensures
            found == self@.pending.contains_key(id),
    {
        self.pending.contains_key(&id)
    }

    /// The number of commands in flight.
    pub fn pending_count(&self) -> (count: usize)
        ensures
            count == self@.pending.len(),
    {
        self.pending.len()
    }

    /// Decides, under the caller's exclusive access, whether a process has to
    /// be spawned. Only a supervisor without a live process answers `Spawn`,
    /// and it is `Starting` from then on, with the next number for the
    /// process.
    pub fn ensure_running(&mut self) -> (launch: Launch)
        ensures
            launch == launch_of(old(self)@.phase),
            final(self)@ == after_ensure(old(self)@),
            inv(old(self)@) ==> inv(final(self)@),
    {
        match self.phase {
            Phase::NotStarted | Phase::Terminated => {
                self.phase = Phase::Starting;
                self.generation = if self.generation == u64::MAX {
                    0
                } else {
                    self.generation + 1
                };
                Launch::Spawn
            },
            Phase::Starting => Launch::AwaitReady,
            Phase::Ready => Launch::Proceed,
        }
    }

    /// Records that the start of the process with this number failed: it
    /// could not be spawned, or did not announce readiness in time. The
    /// next `ensure_running` spawns again. Answers whether that start was
    /// under way: where it was not, nothing changes.
    pub fn start_failed(&mut self, generation: u64) -> (was_starting: bool)
        ensures
            was_starting == is_starting(old(self)@, generation),
            final(self)@ == after_start_failed(old(self)@, generation),
            inv(old(self)@) ==> inv(final(self)@),
    {
        if self.phase == Phase::Starting && self.generation == generation {
            self.phase = Phase::Terminated;
            true
        } else {
            false
        }
    }

    /// Records a readiness signal of the process with this number. Answers
    /// whether it was the one that made the process ready: a later one, or
    /// one of a process that is not starting, changes nothing.
    pub fn ready(&mut self, generation: u64) -> (became_ready: bool)
        ensures
            became_ready == is_starting(old(self)@, generation),
            final(self)@ == after_ready(old(self)@, generation),
            inv(old(self)@) ==> inv(final(self)@),
    {
        if self.phase == Phase::Starting && self.generation == generation {
            self.phase = Phase::Ready;
            true
        } else {
            false
        }
    }

    /// Records that the process with this number ended. Where it was the
    /// one alive, hands out every waiter that was in flight, so that each
    /// can be told of the loss, and keeps none. The end of an older process
    /// changes nothing and hands out nothing.
    pub fn terminated(&mut self, generation: u64) -> (orphans: HashMap<u64, W>)
        ensures
            orphans@ == orphans_of(old(self)@, generation),
            final(self)@ == after_terminated(old(self)@, generation),
            inv(old(self)@) ==> inv(final(self)@),
    {
        let mut orphans: HashMap<u64, W> = HashMap::new();
        if (self.phase == Phase::Starting || self.phase == Phase::Ready) && self.generation
            == generation {
            std::mem::swap(&mut self.pending, &mut orphans);
            self.phase = Phase::Terminated;
        }
        orphans
    }

    /// Registers a new command with its waiter and hands out its identifier.
    /// A supervisor that is not ready takes no command and hands the waiter
    /// back.
    pub fn begin_request(&mut self, waiter: W) -> (outcome: Result<Ticket<W>, W>)
        ensures
            final(self)@ == after_begin(old(self)@, waiter),
            inv(old(self)@) ==> inv(final(self)@),
            old(self)@.phase == Phase::Ready <==> outcome is Ok,
            outcome matches Ok(ticket) ==> {
                &&& ticket.id == old(self)@.next_id
                &&& ticket.displaced == displaced_by(old(self)@)
            },
            outcome matches Err(returned) ==> returned == waiter,
    {
        if self.phase != Phase::Ready {
            return Err(waiter);
        }
        let id: u64 = self.next_id;
        self.next_id = if id == u64::MAX { 0 } else { id + 1 };
        let displaced = self.pending.insert(id, waiter);
        Ok(Ticket { id, displaced })
    }

    /// Takes the command `id` out of flight and hands out its waiter: for a
    /// reply that arrived, a deadline that passed, or a write that failed.
    /// An identifier that is not in flight leaves everything as it is.
    pub fn release(&mut self, id: u64) -> (waiter: Option<W>)
        ensures
            final(self)@ == after_release(old(self)@, id),
            inv(old(self)@) ==> inv(final(self)@),
            waiter == waiter_of(old(self)@, id),
    {
        let waiter = self.pending.remove(&id);
        proof {
            assert(self.pending@ == old(self).pending@.remove(id));
            if inv(old(self)@) && self.phase != Phase::Ready {
                assert(self.pending@ =~= Map::<u64, W>::empty());
            }
        }
        waiter
    }
}

/// The waiter of the command `id`, if it is in flight.
pub open spec fn waiter_of<W>(s: State<W>, id: u64) -> Option<W> {
    if s.pending.contains_key(id) {
        Some(s.pending[id])
    } else {
        None
    }
}

/// The waiter that a new command pushes out: that of a command in flight
/// under the identifier that comes next.
pub open spec fn displaced_by<W>(s: State<W>) -> Option<W> {
    waiter_of(s, s.next_id)
}

} // verus!

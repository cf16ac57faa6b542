//! What holds of a supervisor over whole sequences of events.

use crate::supervisor::{
    after_begin, after_ensure, after_ready, after_release, after_start_failed, after_terminated,
    following, initial, inv, is_alive, is_starting, launch_of, Launch, Phase, State,
};
use vstd::prelude::*;

verus! {

/// One thing that can happen to a supervisor.
pub ghost enum Event<W> {
    /// A caller asked for a running process.
    Ensure,
    /// The start of the process with this number failed: no spawn, or no
    /// readiness signal in time.
    StartFailed(u64),
    /// The process with this number announced readiness.
    Ready(u64),
    /// The process with this number ended.
    Terminated(u64),
    /// A command was registered with this waiter.
    Begin(W),
    /// The command with this identifier was taken out of flight.
    Release(u64),
}

/// The state after one event.
pub open spec fn step<W>(s: State<W>, e: Event<W>) -> State<W> {
    match e {
        Event::Ensure => after_ensure(s),
        Event::StartFailed(generation) => after_start_failed(s, generation),
        Event::Ready(generation) => after_ready(s, generation),
        Event::Terminated(generation) => after_terminated(s, generation),
        Event::Begin(w) => after_begin(s, w),
        Event::Release(id) => after_release(s, id),
    }
}

/// The state after a sequence of events, the first one first.
pub open spec fn run<W>(s: State<W>, events: Seq<Event<W>>) -> State<W>
    decreases events.len(),
{
    if events.len() == 0 {
        s
    } else {
        step(run(s, events.drop_last()), events.last())
    }
}

/// Whether the event hands out an identifier in state `s`.
pub open spec fn issues<W>(s: State<W>, e: Event<W>) -> bool {
    e is Begin && s.phase == Phase::Ready
}

/// Whether the event makes its caller spawn a process in state `s`.
pub open spec fn spawns<W>(s: State<W>, e: Event<W>) -> bool {
    e is Ensure && launch_of(s.phase) == Launch::Spawn
}

/// The identifiers that a sequence of events hands out, in their order.
pub open spec fn issued<W>(s: State<W>, events: Seq<Event<W>>) -> Seq<u64>
    decreases events.len(),
{
    if events.len() == 0 {
        Seq::empty()
    } else {
        let before = run(s, events.drop_last());
        let earlier = issued(s, events.drop_last());
        if issues(before, events.last()) {
            earlier.push(before.next_id)
        } else {
            earlier
        }
    }
}

/// The number of spawns that a sequence of events asks for.
pub open spec fn spawn_count<W>(s: State<W>, events: Seq<Event<W>>) -> nat
    decreases events.len(),
{
    if events.len() == 0 {
        0
    } else {
        let before = run(s, events.drop_last());
        let earlier = spawn_count(s, events.drop_last());
        if spawns(before, events.last()) {
            earlier + 1
        } else {
            earlier
        }
    }
}

/// Every event keeps the invariant.
pub proof fn law_step_keeps_invariant<W>(s: State<W>, e: Event<W>)
    requires
        inv(s),
    ensures
        inv(step(s, e)),
{
    match e {
        Event::Release(id) => {
            if s.phase != Phase::Ready {
                assert(s.pending.remove(id) =~= Map::<u64, W>::empty());
            }
        },
        _ => {},
    }
}

/// The invariant holds after every sequence of events: whenever the process
/// is not ready, no command is in flight.
pub proof fn law_no_command_outlives_the_process<W>(s: State<W>, events: Seq<Event<W>>)
    requires
        inv(s),
    ensures
        inv(run(s, events)),
    decreases events.len(),
{
    if events.len() > 0 {
        law_no_command_outlives_the_process(s, events.drop_last());
        law_step_keeps_invariant(run(s, events.drop_last()), events.last());
    }
}

/// As long as the counter does not wrap, it stands at its start plus the
/// number of identifiers handed out.
pub proof fn law_counter_counts_issued<W>(s: State<W>, events: Seq<Event<W>>)
    requires
        s.next_id + issued(s, events).len() <= u64::MAX,
    ensures
        run(s, events).next_id == s.next_id + issued(s, events).len(),
    decreases events.len(),
{
    if events.len() > 0 {
        law_counter_counts_issued(s, events.drop_last());
    }
}

/// As long as the counter does not wrap, the identifiers handed out are
/// consecutive from the counter's start: the one at place `i` is the start
/// plus `i`.
pub proof fn law_identifiers_are_consecutive<W>(s: State<W>, events: Seq<Event<W>>, i: int)
    requires
        s.next_id + issued(s, events).len() <= u64::MAX,
        0 <= i < issued(s, events).len(),
    ensures
        issued(s, events)[i] == s.next_id + i,
    decreases events.len(),
{
    if events.len() > 0 {
        let shorter = events.drop_last();
        let before = run(s, shorter);
        if issues(before, events.last()) && i == issued(s, shorter).len() {
            law_counter_counts_issued(s, shorter);
        } else {
            law_identifiers_are_consecutive(s, shorter, i);
        }
    }
}

/// As long as the counter does not wrap, identifiers are strictly increasing
/// in the order in which they are handed out, so no two are equal.
pub proof fn law_identifiers_strictly_increase<W>(
    s: State<W>,
    events: Seq<Event<W>>,
    i: int,
    j: int,
)
    requires
        s.next_id + issued(s, events).len() <= u64::MAX,
        0 <= i < j < issued(s, events).len(),
    ensures
        issued(s, events)[i] < issued(s, events)[j],
{
    law_identifiers_are_consecutive(s, events, i);
    law_identifiers_are_consecutive(s, events, j);
}

/// Once the process that was alive has ended, whatever was in flight is out
/// of flight, and the next caller that asks for a running process is told
/// to spawn one, the next in number.
pub proof fn law_termination_clears_and_restarts<W>(s: State<W>, generation: u64)
    requires
        is_alive(s, generation),
    ensures
        after_terminated(s, generation).pending == Map::<u64, W>::empty(),
        launch_of(after_terminated(s, generation).phase) == Launch::Spawn,
        after_ensure(after_terminated(s, generation)).phase == Phase::Starting,
        after_ensure(after_terminated(s, generation)).generation == following(generation),
{
}

/// What a process other than the last one started still reports changes
/// nothing: neither its readiness, nor the failure of its start, nor its
/// end.
pub proof fn law_an_older_process_changes_nothing<W>(s: State<W>, generation: u64)
    requires
        generation != s.generation,
    ensures
        after_ready(s, generation) == s,
        after_start_failed(s, generation) == s,
        after_terminated(s, generation) == s,
{
}

/// A released command is out of flight, and a second release of it finds
/// nothing and changes nothing: no waiter is handed out twice.
pub proof fn law_release_is_final<W>(s: State<W>, id: u64)
    ensures
        !after_release(s, id).pending.contains_key(id),
        after_release(after_release(s, id), id) == after_release(s, id),
{
    assert(s.pending.remove(id).remove(id) =~= s.pending.remove(id));
}

/// Of two callers that ask for a running process one after the other, with
/// nothing in between, at most one is told to spawn, and exactly one where
/// no process is alive.
pub proof fn law_two_callers_one_spawn<W>(s: State<W>)
    ensures
        !(launch_of(s.phase) == Launch::Spawn && launch_of(after_ensure(s).phase) == Launch::Spawn),
        (s.phase == Phase::NotStarted || s.phase == Phase::Terminated) ==> launch_of(s.phase)
            == Launch::Spawn,
{
}

/// Whether the event takes the live process away in state `s`: the end of
/// the process that is alive, or the failure of the start that is under
/// way. What an older process reports takes nothing away.
pub open spec fn loses<W>(s: State<W>, e: Event<W>) -> bool {
    match e {
        Event::Terminated(generation) => is_alive(s, generation),
        Event::StartFailed(generation) => is_starting(s, generation),
        _ => false,
    }
}

/// Whether none of the events takes the live process away.
pub open spec fn no_loss<W>(s: State<W>, events: Seq<Event<W>>) -> bool
    decreases events.len(),
{
    events.len() == 0 || (no_loss(s, events.drop_last()) && !loses(
        run(s, events.drop_last()),
        events.last(),
    ))
}

/// Whether some caller asks for a running process among the events.
pub open spec fn asked<W>(events: Seq<Event<W>>) -> bool {
    exists|i: int| 0 <= i < events.len() && #[trigger] events[i] is Ensure
}

/// Somebody asks among the events where somebody asks among all but the
/// last, or the last asks.
proof fn lemma_asked<W>(events: Seq<Event<W>>)
    requires
        events.len() > 0,
    ensures
        asked(events) <==> asked(events.drop_last()) || events.last() is Ensure,
{
    let shorter = events.drop_last();
    let n = events.len() - 1;
    assert(events.last() == events[n]);
    if asked(shorter) {
        let i = choose|i: int| 0 <= i < shorter.len() && #[trigger] shorter[i] is Ensure;
        assert(events[i] == shorter[i]);
    }
    if asked(events) {
        let i = choose|i: int| 0 <= i < events.len() && #[trigger] events[i] is Ensure;
        if i < n {
            assert(shorter[i] == events[i]);
        }
    }
}

/// While nothing takes the live process away, a supervisor that has a
/// process keeps it, whatever else happens, and nobody is told to spawn.
pub proof fn law_live_process_is_kept<W>(s: State<W>, events: Seq<Event<W>>)
    requires
        no_loss(s, events),
        s.phase == Phase::Starting || s.phase == Phase::Ready,
    ensures
        run(s, events).phase == Phase::Starting || run(s, events).phase == Phase::Ready,
        run(s, events).generation == s.generation,
        spawn_count(s, events) == 0,
    decreases events.len(),
{
    if events.len() > 0 {
        law_live_process_is_kept(s, events.drop_last());
    }
}

/// While nobody asks for a process, a supervisor without one stays without,
/// and nobody is told to spawn.
proof fn lemma_without_ensure<W>(s: State<W>, events: Seq<Event<W>>)
    requires
        launch_of(s.phase) == Launch::Spawn,
        !asked(events),
    ensures
        launch_of(run(s, events).phase) == Launch::Spawn,
        spawn_count(s, events) == 0,
    decreases events.len(),
{
    if events.len() > 0 {
        lemma_asked(events);
        lemma_without_ensure(s, events.drop_last());
    }
}

/// While nothing takes the live process away, all the callers together are
/// told to spawn at most once, however many ask and whatever else happens in
/// between, reports of older processes included: no second process is
/// started beside a live one. The one spawn comes exactly where the
/// supervisor had no process and somebody asked.
pub proof fn law_at_most_one_spawn<W>(s: State<W>, events: Seq<Event<W>>)
    requires
        no_loss(s, events),
    ensures
        spawn_count(s, events) <= 1,
        spawn_count(s, events) == 1 <==> launch_of(s.phase) == Launch::Spawn && asked(events),
        launch_of(s.phase) == Launch::Spawn && asked(events) ==> launch_of(run(s, events).phase)
            != Launch::Spawn,
    decreases events.len(),
{
    if launch_of(s.phase) != Launch::Spawn {
        law_live_process_is_kept(s, events);
    } else if !asked(events) {
        lemma_without_ensure(s, events);
    } else {
        lemma_asked(events);
        let shorter = events.drop_last();
        if asked(shorter) {
            law_at_most_one_spawn(s, shorter);
        } else {
            lemma_without_ensure(s, shorter);
        }
    }
}

/// The initial state satisfies the invariant.
pub proof fn law_initial_state_is_valid<W>()
    ensures
        inv(initial::<W>()),
        launch_of(initial::<W>().phase) == Launch::Spawn,
{
}

/// Whether the event hands out the waiter of the command `id` in state `s`:
/// by a release of the command, by the end of the process, or by a new
/// command that takes over the identifier.
pub open spec fn hands_out<W>(s: State<W>, e: Event<W>, id: u64) -> bool {
    s.pending.contains_key(id) && match e {
        Event::Release(released) => released == id,
        Event::Terminated(generation) => is_alive(s, generation),
        Event::Begin(_) => s.phase == Phase::Ready && s.next_id == id,
        _ => false,
    }
}

/// How often a sequence of events hands out the waiter of the command `id`.
pub open spec fn times_handed_out<W>(s: State<W>, events: Seq<Event<W>>, id: u64) -> nat
    decreases events.len(),
{
    if events.len() == 0 {
        0
    } else {
        let before = run(s, events.drop_last());
        let earlier = times_handed_out(s, events.drop_last(), id);
        if hands_out(before, events.last(), id) {
            earlier + 1
        } else {
            earlier
        }
    }
}

/// How often a sequence of events issues the identifier `id`.
pub open spec fn times_issued<W>(s: State<W>, events: Seq<Event<W>>, id: u64) -> nat
    decreases events.len(),
{
    if events.len() == 0 {
        0
    } else {
        let before = run(s, events.drop_last());
        let earlier = times_issued(s, events.drop_last(), id);
        if issues(before, events.last()) && before.next_id == id {
            earlier + 1
        } else {
            earlier
        }
    }
}

/// One where the command `id` is in flight, zero where it is not.
pub open spec fn in_flight<W>(s: State<W>, id: u64) -> nat {
    if s.pending.contains_key(id) {
        1
    } else {
        0
    }
}

/// Whether every command in flight has an identifier below the counter.
pub open spec fn below_counter<W>(s: State<W>) -> bool {
    forall|id: u64| s.pending.contains_key(id) ==> id < s.next_id
}

/// As long as the counter does not wrap, every command is accounted for:
/// an identifier is issued at most once, and the waiter of a command that
/// was in flight at the start or was issued since has been handed out
/// exactly once or is still in flight, never both and never twice. The
/// waiter of any other identifier has never been handed out.
pub proof fn law_every_waiter_is_handed_out_once<W>(s: State<W>, events: Seq<Event<W>>, id: u64)
    requires
        below_counter(s),
        s.next_id + issued(s, events).len() <= u64::MAX,
    ensures
        below_counter(run(s, events)),
        times_issued(s, events, id) <= 1,
        times_issued(s, events, id) == 1 ==> s.next_id <= id < run(s, events).next_id,
        times_handed_out(s, events, id) + in_flight(run(s, events), id) == in_flight(s, id)
            + times_issued(s, events, id),
        times_handed_out(s, events, id) <= 1,
    decreases events.len(),
{
    if events.len() > 0 {
        let shorter = events.drop_last();
        let before = run(s, shorter);
        let last = events.last();
        law_every_waiter_is_handed_out_once(s, shorter, id);
        law_counter_counts_issued(s, shorter);
        law_counter_counts_issued(s, events);
        let after = step(before, last);
        assert(after == run(s, events));
        assert forall|k: u64| after.pending.contains_key(k) implies k < after.next_id by {
            if before.pending.contains_key(k) {
                assert(k < before.next_id);
            }
        }
        if times_issued(s, shorter, id) == 1 {
            assert(id < before.next_id);
        }
    }
}

/// Once the process that was started last has ended, every command that
/// was in flight at the start or was issued since has had its waiter handed
/// out exactly once: no caller is left waiting, and none is answered twice.
pub proof fn law_termination_settles_every_command<W>(
    s: State<W>,
    events: Seq<Event<W>>,
    id: u64,
)
    requires
        inv(s),
        below_counter(s),
        s.next_id + issued(s, events).len() <= u64::MAX,
        events.len() > 0,
        events.last() matches Event::Terminated(generation) && generation == run(
            s,
            events.drop_last(),
        ).generation,
    ensures
        times_handed_out(s, events, id) == in_flight(s, id) + times_issued(s, events, id),
        times_handed_out(s, events, id) <= 1,
{
    law_every_waiter_is_handed_out_once(s, events, id);
    law_no_command_outlives_the_process(s, events.drop_last());
    law_no_command_outlives_the_process(s, events);
}

} // verus!

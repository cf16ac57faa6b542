use adapter_supervisor::supervisor::{Launch, Phase, Supervisor};

fn ready_supervisor() -> Supervisor<&'static str> {
    let mut s = Supervisor::new();
    assert_eq!(s.ensure_running(), Launch::Spawn);
    assert!(s.ready(s.generation()));
    s
}

#[test]
fn a_new_supervisor_has_started_nothing() {
    let s: Supervisor<u8> = Supervisor::new();
    assert_eq!(s.phase(), Phase::NotStarted);
    assert_eq!(s.pending_count(), 0);
}

#[test]
fn the_first_caller_spawns_and_the_second_waits() {
    let mut s: Supervisor<u8> = Supervisor::new();
    assert_eq!(s.ensure_running(), Launch::Spawn);
    assert_eq!(s.phase(), Phase::Starting);
    assert_eq!(s.ensure_running(), Launch::AwaitReady);
    assert_eq!(s.ensure_running(), Launch::AwaitReady);
    assert_eq!(s.phase(), Phase::Starting);
}

#[test]
fn a_ready_process_lets_callers_proceed() {
    let mut s = ready_supervisor();
    assert_eq!(s.phase(), Phase::Ready);
    assert_eq!(s.ensure_running(), Launch::Proceed);
    assert_eq!(s.phase(), Phase::Ready);
}

#[test]
fn only_the_first_readiness_signal_counts() {
    let mut s: Supervisor<u8> = Supervisor::new();
    assert!(!s.ready(s.generation()));
    assert_eq!(s.phase(), Phase::NotStarted);
    s.ensure_running();
    assert!(s.ready(s.generation()));
    assert!(!s.ready(s.generation()));
    assert_eq!(s.phase(), Phase::Ready);
}

#[test]
fn a_failed_start_is_retried_by_the_next_caller() {
    let mut s: Supervisor<u8> = Supervisor::new();
    assert_eq!(s.ensure_running(), Launch::Spawn);
    assert!(s.start_failed(s.generation()));
    assert_eq!(s.phase(), Phase::Terminated);
    assert_eq!(s.ensure_running(), Launch::Spawn);
    assert_eq!(s.phase(), Phase::Starting);
}

#[test]
fn a_failed_start_means_nothing_without_a_start() {
    let mut s = ready_supervisor();
    assert!(!s.start_failed(s.generation()));
    assert_eq!(s.phase(), Phase::Ready);
}

#[test]
fn identifiers_start_at_one_and_increase() {
    let mut s = ready_supervisor();
    let a = s.begin_request("a").ok().unwrap();
    let b = s.begin_request("b").ok().unwrap();
    let c = s.begin_request("c").ok().unwrap();
    assert_eq!((a.id, b.id, c.id), (1, 2, 3));
    assert!(a.displaced.is_none() && b.displaced.is_none() && c.displaced.is_none());
    assert_eq!(s.pending_count(), 3);
    assert!(s.is_pending(1) && s.is_pending(2) && s.is_pending(3));
    assert!(!s.is_pending(4));
}

#[test]
fn identifiers_are_not_reused_after_release_or_restart() {
    let mut s = ready_supervisor();
    let a = s.begin_request("a").ok().unwrap();
    assert_eq!(s.release(a.id), Some("a"));
    let b = s.begin_request("b").ok().unwrap();
    assert_eq!(b.id, 2);
    s.terminated(s.generation());
    s.ensure_running();
    s.ready(s.generation());
    let c = s.begin_request("c").ok().unwrap();
    assert_eq!(c.id, 3);
}

#[test]
fn a_supervisor_that_is_not_ready_takes_no_command() {
    let mut s: Supervisor<&str> = Supervisor::new();
    assert_eq!(s.begin_request("w").err(), Some("w"));
    s.ensure_running();
    assert_eq!(s.begin_request("w").err(), Some("w"));
    assert_eq!(s.pending_count(), 0);
    s.ready(s.generation());
    assert_eq!(s.begin_request("w").ok().unwrap().id, 1);
}

#[test]
fn a_released_command_is_released_once() {
    let mut s = ready_supervisor();
    let t = s.begin_request("w").ok().unwrap();
    assert_eq!(s.release(t.id), Some("w"));
    assert!(!s.is_pending(t.id));
    assert_eq!(s.release(t.id), None);
    assert_eq!(s.pending_count(), 0);
}

#[test]
fn releasing_an_unknown_identifier_changes_nothing() {
    let mut s = ready_supervisor();
    s.begin_request("w").ok().unwrap();
    assert_eq!(s.release(99), None);
    assert_eq!(s.pending_count(), 1);
    assert!(s.is_pending(1));
}

#[test]
fn termination_hands_out_every_waiter_in_flight() {
    let mut s = ready_supervisor();
    for w in ["a", "b", "c"] {
        s.begin_request(w).ok().unwrap();
    }
    s.release(2);
    let orphans = s.terminated(s.generation());
    assert_eq!(orphans.len(), 2);
    assert_eq!(orphans.get(&1), Some(&"a"));
    assert_eq!(orphans.get(&3), Some(&"c"));
    assert_eq!(s.pending_count(), 0);
    assert_eq!(s.phase(), Phase::Terminated);
    assert!(s.terminated(s.generation()).is_empty());
}

#[test]
fn after_a_termination_the_next_caller_spawns_afresh() {
    let mut s = ready_supervisor();
    s.begin_request("a").ok().unwrap();
    s.terminated(s.generation());
    assert_eq!(s.ensure_running(), Launch::Spawn);
    assert_eq!(s.ensure_running(), Launch::AwaitReady);
    assert!(s.ready(s.generation()));
    assert_eq!(s.ensure_running(), Launch::Proceed);
    assert_eq!(s.begin_request("b").ok().unwrap().id, 2);
}

#[test]
fn processes_are_numbered_from_one() {
    let mut s: Supervisor<u8> = Supervisor::new();
    assert_eq!(s.generation(), 0);
    s.ensure_running();
    assert_eq!(s.generation(), 1);
    s.ensure_running();
    assert_eq!(s.generation(), 1);
    s.ready(1);
    s.ensure_running();
    assert_eq!(s.generation(), 1);
    s.terminated(1);
    assert_eq!(s.generation(), 1);
    s.ensure_running();
    assert_eq!(s.generation(), 2);
}

#[test]
fn the_end_of_an_older_process_changes_nothing() {
    let mut s: Supervisor<&str> = Supervisor::new();
    s.ensure_running();
    assert!(s.start_failed(1));
    s.ensure_running();
    assert_eq!(s.generation(), 2);
    assert!(s.terminated(1).is_empty());
    assert_eq!(s.phase(), Phase::Starting);
    assert!(s.ready(2));
    s.begin_request("w").ok().unwrap();
    assert!(s.terminated(1).is_empty());
    assert_eq!(s.phase(), Phase::Ready);
    assert_eq!(s.pending_count(), 1);
    let orphans = s.terminated(2);
    assert_eq!(orphans.get(&1), Some(&"w"));
    assert_eq!(s.phase(), Phase::Terminated);
}

#[test]
fn what_an_older_process_reports_of_its_start_changes_nothing() {
    let mut s: Supervisor<u8> = Supervisor::new();
    s.ensure_running();
    s.start_failed(1);
    s.ensure_running();
    assert!(!s.ready(1));
    assert_eq!(s.phase(), Phase::Starting);
    assert!(!s.start_failed(1));
    assert_eq!(s.phase(), Phase::Starting);
    assert!(!s.ready(3));
    assert!(s.ready(2));
    assert!(!s.start_failed(2));
    assert_eq!(s.phase(), Phase::Ready);
}

#[test]
fn the_end_of_a_process_that_was_given_up_is_no_second_loss() {
    let mut s: Supervisor<u8> = Supervisor::new();
    s.ensure_running();
    assert!(s.start_failed(1));
    assert!(s.terminated(1).is_empty());
    assert_eq!(s.phase(), Phase::Terminated);
    assert_eq!(s.ensure_running(), Launch::Spawn);
}

#[test]
fn nothing_ends_before_anything_started() {
    let mut s: Supervisor<u8> = Supervisor::new();
    assert!(s.terminated(0).is_empty());
    assert_eq!(s.phase(), Phase::NotStarted);
    assert!(!s.start_failed(0));
    assert!(!s.ready(0));
    assert_eq!(s.phase(), Phase::NotStarted);
}

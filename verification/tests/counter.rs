use refcountd::counter::{CounterError, RefCounter};

fn fresh(check_success: bool) -> RefCounter {
    RefCounter::new("start".to_string(), "end".to_string(), check_success)
}

#[test]
fn new_counter_is_idle() {
    let c = fresh(true);
    assert_eq!(c.count(), 0);
    assert!(!c.should_exit());
    assert_eq!(c.start_command(), "start");
    assert_eq!(c.end_command(), "end");
    assert!(c.check_success());
    assert!(!fresh(false).check_success());
}

#[test]
fn count_is_net_of_successful_operations() {
    let mut c = fresh(true);
    assert!(c.increment(true).is_ok());
    assert!(c.increment(true).is_ok());
    assert!(c.increment(false).is_ok()); // count > 0: no start command involved
    assert!(c.decrement().is_ok());
    assert!(c.increment(true).is_ok());
    assert_eq!(c.decrement(), Ok(false));
    assert_eq!(c.count(), 2);
    assert!(c.decrement().is_ok());
    assert_eq!(c.decrement(), Ok(true));
    assert_eq!(c.decrement(), Err(CounterError::Underflow));
    assert_eq!(c.count(), 0);
}

#[test]
fn start_command_runs_only_on_the_up_edge() {
    let mut c = fresh(true);
    assert!(c.increment_runs_start());
    assert!(c.increment(true).is_ok());
    assert!(!c.increment_runs_start());
    assert!(c.increment(true).is_ok());
    assert!(!c.increment_runs_start());
    assert_eq!(c.decrement(), Ok(false));
    assert_eq!(c.decrement(), Ok(true)); // end command due exactly here
    assert!(c.increment_runs_start()); // next interval starts a new command
}

#[test]
fn failed_start_command_leaves_count_unchanged() {
    let mut c = fresh(true);
    assert_eq!(c.increment(false), Err(CounterError::CommandFailed));
    assert_eq!(c.count(), 0);
    assert!(c.increment_runs_start());
}

#[test]
fn decrement_at_zero_is_rejected() {
    let mut c = fresh(true);
    assert_eq!(c.decrement(), Err(CounterError::Underflow));
    assert_eq!(c.count(), 0);
    assert!(!c.should_exit());
}

#[test]
fn exit_succeeds_exactly_at_zero() {
    let mut c = fresh(true);
    assert!(c.exit());
    assert!(c.should_exit());

    let mut busy = fresh(true);
    assert!(busy.increment(true).is_ok());
    assert!(!busy.exit());
    assert_eq!(busy.count(), 1);
    assert!(!busy.should_exit());
}

#[test]
fn force_exit_always_sets_the_flag() {
    let mut c = fresh(true);
    assert!(c.increment(true).is_ok());
    assert!(c.increment(true).is_ok());
    c.force_exit();
    assert!(c.should_exit());
    assert_eq!(c.count(), 2);
}

#[test]
fn finalize_runs_end_command_exactly_once() {
    let mut c = fresh(true);
    assert!(c.increment(true).is_ok());
    assert!(c.increment(true).is_ok());
    assert_eq!(c.count(), 2);
    assert!(c.finalize()); // end command due exactly once
    assert_eq!(c.count(), 0);
    assert!(!c.finalize()); // never twice
}

#[test]
fn finalize_of_idle_counter_asks_for_nothing() {
    let mut c = fresh(true);
    assert!(!c.finalize());
    assert_eq!(c.count(), 0);
}

#[test]
fn full_session_scenario() {
    let mut c = fresh(true);
    assert!(c.increment_runs_start());
    assert!(c.increment(true).is_ok());
    assert_eq!(c.count(), 1);
    assert_eq!(refcountd::session::format_count_line(c.count()), b"1\n");
    assert_eq!(c.decrement(), Ok(true));
    assert_eq!(c.count(), 0);
    assert!(c.exit());
    assert!(c.should_exit());
}

use refcountd::command::command_succeeded;

#[test]
fn spawn_failure_is_never_a_success() {
    assert!(!command_succeeded(None, true));
    assert!(!command_succeeded(None, false));
}

#[test]
fn nonzero_exit_fails_only_when_checked() {
    assert!(!command_succeeded(Some(false), true));
    assert!(command_succeeded(Some(false), false));
}

#[test]
fn zero_exit_always_succeeds() {
    assert!(command_succeeded(Some(true), true));
    assert!(command_succeeded(Some(true), false));
}

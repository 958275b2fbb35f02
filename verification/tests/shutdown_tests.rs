use btnify::shutdown::{ShutdownAction, ShutdownCoordinator, ShutdownPhase};

#[test]
fn hook_ordered_once_then_never_again() {
    let mut coordinator = ShutdownCoordinator::new(true);
    assert_eq!(coordinator.phase(), ShutdownPhase::Running);

    // First stop event: the external cancellation signal fires.
    assert_eq!(coordinator.on_stop_event(), ShutdownAction::RunHook);
    assert_eq!(coordinator.phase(), ShutdownPhase::Stopping);

    // A second trigger (the signal reported again, or the interrupt
    // losing the race) must not order the hook a second time.
    assert_eq!(coordinator.on_stop_event(), ShutdownAction::Ignore);

    coordinator.hook_finished();
    assert_eq!(coordinator.phase(), ShutdownPhase::Stopped);

    // Stop events after the machine stopped stay inert.
    assert_eq!(coordinator.on_stop_event(), ShutdownAction::Ignore);
    assert_eq!(coordinator.phase(), ShutdownPhase::Stopped);
}

#[test]
fn no_hook_configured_means_no_hook_run() {
    let mut coordinator = ShutdownCoordinator::new(false);
    assert_eq!(coordinator.on_stop_event(), ShutdownAction::Ignore);
    assert_eq!(coordinator.phase(), ShutdownPhase::Stopping);
    assert_eq!(coordinator.on_stop_event(), ShutdownAction::Ignore);
}

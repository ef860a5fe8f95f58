use buttplug::communication::{HardwareCommunicationManager, TimedRetryCommunicationManagerImpl};
use buttplug::scan_loop::{ScanLoopEvent, ScanLoopState};
use buttplug::timed_retry::TimedRetryCommunicationManager;

struct MockBackend {
    scans: bool,
}

impl TimedRetryCommunicationManagerImpl for MockBackend {
    fn name(&self) -> &'static str {
        "MockBackend"
    }

    fn can_scan(&self) -> bool {
        self.scans
    }
}

#[test]
fn new_manager_is_idle() {
    let manager = TimedRetryCommunicationManager::new(MockBackend { scans: true });
    assert!(!manager.scanning_status());
}

#[test]
fn manager_reports_the_backend_name_and_capability() {
    let scanning = TimedRetryCommunicationManager::new(MockBackend { scans: true });
    assert_eq!(scanning.name(), "MockBackend");
    assert!(scanning.can_scan());
    let passive = TimedRetryCommunicationManager::new(MockBackend { scans: false });
    assert!(!passive.can_scan());
}

#[test]
fn start_scanning_hands_back_the_loop_to_spawn() {
    let mut manager = TimedRetryCommunicationManager::new(MockBackend { scans: true });
    let started = manager.start_scanning();
    let task = started.expect("start succeeds").expect("a loop is to be spawned");
    assert_eq!(task.comm_manager.name(), "MockBackend");
    assert!(!task.cancellation_token.is_cancelled());
    assert!(manager.scanning_status());
}

#[test]
fn start_scanning_twice_is_start_scanning_once() {
    let mut manager = TimedRetryCommunicationManager::new(MockBackend { scans: true });
    let first = manager.start_scanning();
    let task = first.expect("start succeeds").expect("a loop is to be spawned");
    let second = manager.start_scanning();
    assert!(matches!(second, Ok(None)));
    assert!(manager.scanning_status());
    // The loop of the first start is untouched by the second.
    assert!(!task.cancellation_token.is_cancelled());
}

#[test]
fn stop_scanning_when_idle_succeeds_and_stays_idle() {
    let mut manager = TimedRetryCommunicationManager::new(MockBackend { scans: true });
    assert_eq!(manager.stop_scanning(), Ok(()));
    assert!(!manager.scanning_status());
    assert_eq!(manager.stop_scanning(), Ok(()));
    assert!(!manager.scanning_status());
}

#[test]
fn stop_scanning_cancels_the_running_loop() {
    let mut manager = TimedRetryCommunicationManager::new(MockBackend { scans: true });
    let task = manager.start_scanning().unwrap().unwrap();
    assert!(!task.cancellation_token.is_cancelled());
    assert_eq!(manager.stop_scanning(), Ok(()));
    assert!(task.cancellation_token.is_cancelled());
    assert!(!manager.scanning_status());
}

#[test]
fn start_after_stop_begins_a_fresh_loop() {
    let mut manager = TimedRetryCommunicationManager::new(MockBackend { scans: true });
    let first = manager.start_scanning().unwrap().unwrap();
    manager.stop_scanning().unwrap();
    let second = manager.start_scanning().unwrap().expect("a fresh loop is to be spawned");
    assert!(first.cancellation_token.is_cancelled());
    assert!(!second.cancellation_token.is_cancelled());
    assert!(manager.scanning_status());
}

#[test]
fn status_stays_stale_after_the_loop_failed_until_stopped() {
    let mut manager = TimedRetryCommunicationManager::new(MockBackend { scans: true });
    let _task = manager.start_scanning().unwrap().unwrap();
    // The loop sees its pass fail and ends on its own.
    let state = ScanLoopState::start().step(ScanLoopEvent::PassFailed);
    assert_eq!(state, ScanLoopState::Finished);
    // The manager has not been told: it still reports a scan and a start is a no-op.
    assert!(manager.scanning_status());
    assert!(matches!(manager.start_scanning(), Ok(None)));
    // An explicit stop brings it back to idle, and the next start spawns a loop.
    assert_eq!(manager.stop_scanning(), Ok(()));
    assert!(!manager.scanning_status());
    assert!(matches!(manager.start_scanning(), Ok(Some(_))));
}

use exile_rs::pob::progress::{
    announced_total, InstallPhase, InstallProgress, InstallReporter, InstallStatus,
    ProgressThrottle, PROGRESS_THROTTLE_MS,
};

#[test]
fn test_progress_throttle_constant() {
    // Verify constant is set
    assert_eq!(PROGRESS_THROTTLE_MS, 100);
}

#[test]
fn throttle_lets_first_in_progress_through() {
    let mut throttle = ProgressThrottle::new();
    let status = InstallStatus::InProgress { done: 1, total: 10 };
    assert!(throttle.offer(&status, 5));
    assert_eq!(throttle.last_emit, Some(5));
}

#[test]
fn throttle_holds_back_in_progress_within_interval() {
    let mut throttle = ProgressThrottle::starting_at(1_000);
    let status = InstallStatus::InProgress { done: 1, total: 10 };
    assert!(!throttle.offer(&status, 1_000));
    assert!(!throttle.offer(&status, 1_099));
    assert_eq!(throttle.last_emit, Some(1_000));
    assert!(throttle.offer(&status, 1_100));
    assert_eq!(throttle.last_emit, Some(1_100));
    assert!(!throttle.offer(&status, 1_199));
    assert!(throttle.offer(&status, 1_250));
    assert_eq!(throttle.last_emit, Some(1_250));
}

#[test]
fn throttle_never_holds_back_other_events() {
    let mut throttle = ProgressThrottle::starting_at(1_000);
    assert!(throttle.offer(&InstallStatus::Started { total_size: None }, 1_001));
    assert!(throttle.offer(&InstallStatus::Completed, 1_002));
    assert!(throttle.offer(&InstallStatus::Cancelled, 1_003));
    assert!(throttle.offer(
        &InstallStatus::Failed { reason: "boom".to_string() },
        1_004
    ));
    // None of them moved the throttle.
    assert_eq!(throttle.last_emit, Some(1_000));
}

#[test]
fn throttle_is_not_due_when_the_clock_reads_earlier() {
    let throttle = ProgressThrottle::starting_at(1_000);
    assert!(!throttle.is_due(10));
    assert!(throttle.is_due(1_100));
}

#[test]
fn emitted_in_progress_events_are_spaced() {
    let mut throttle = ProgressThrottle::new();
    let mut passed: Vec<u64> = Vec::new();
    let mut now = 0u64;
    while now < 1_000 {
        let status = InstallStatus::InProgress { done: now, total: 1_000 };
        if throttle.offer(&status, now) {
            passed.push(now);
        }
        now += 7;
    }
    assert!(passed.len() > 1);
    for pair in passed.windows(2) {
        assert!(pair[1] - pair[0] >= PROGRESS_THROTTLE_MS);
    }
    assert!(throttle.offer(&InstallStatus::Completed, now));
}

#[test]
fn announced_total_keeps_low_32_bits() {
    assert_eq!(announced_total(0), None);
    assert_eq!(announced_total(1000), Some(1000));
    assert_eq!(announced_total(u32::MAX as u64), Some(u32::MAX));
    assert_eq!(announced_total(1u64 << 32), None);
    assert_eq!(announced_total((1u64 << 32) + 5), Some(5));
}

#[test]
fn started_status_carries_announced_total() {
    match InstallStatus::started(42) {
        InstallStatus::Started { total_size } => assert_eq!(total_size, Some(42)),
        _ => panic!("expected Started"),
    }
    match InstallStatus::started(0) {
        InstallStatus::Started { total_size } => assert_eq!(total_size, None),
        _ => panic!("expected Started"),
    }
}

#[test]
fn install_progress_new_keeps_fields() {
    let p = InstallProgress::new("task1", InstallPhase::Moving, InstallStatus::Completed);
    assert_eq!(p.task_id, "task1");
    assert!(matches!(p.phase, InstallPhase::Moving));
    assert!(matches!(p.status, InstallStatus::Completed));
    let q = p.clone();
    assert_eq!(q.task_id, "task1");
}

/// Sink for testing - captures all emitted progress
#[derive(Clone)]
struct MockProgressSink {
    events: std::sync::Arc<std::sync::Mutex<Vec<InstallProgress>>>,
}

impl MockProgressSink {
    fn new() -> Self {
        Self {
            events: std::sync::Arc::new(std::sync::Mutex::new(Vec::new())),
        }
    }

    fn emit(&self, progress: InstallProgress) {
        self.events.lock().unwrap().push(progress);
    }

    fn get_events(&self) -> Vec<InstallProgress> {
        self.events.lock().unwrap().clone()
    }
}

#[test]
fn test_install_reporter_basic() {
    let sink = MockProgressSink::new();
    let reporter = InstallReporter::new("test_task");

    assert_eq!(reporter.task_id(), "test_task");

    sink.emit(reporter.report(
        InstallPhase::Downloading,
        InstallStatus::Started { total_size: None },
    ));

    let events = sink.get_events();
    assert_eq!(events.len(), 1);
    assert_eq!(events[0].task_id, "test_task");
    assert!(matches!(events[0].phase, InstallPhase::Downloading));
}

#[test]
fn test_install_reporter_multiple_phases() {
    let sink = MockProgressSink::new();
    let reporter = InstallReporter::new("multi_phase");

    sink.emit(reporter.report(
        InstallPhase::Downloading,
        InstallStatus::Started { total_size: None },
    ));
    sink.emit(reporter.report(
        InstallPhase::Downloading,
        InstallStatus::InProgress { done: 50, total: 100 },
    ));
    sink.emit(reporter.report(InstallPhase::Downloading, InstallStatus::Completed));
    sink.emit(reporter.report(
        InstallPhase::Extracting,
        InstallStatus::Started { total_size: None },
    ));

    let events = sink.get_events();
    assert_eq!(events.len(), 4);

    // Verify phase transitions
    assert!(matches!(events[0].phase, InstallPhase::Downloading));
    assert!(matches!(events[0].status, InstallStatus::Started { .. }));
    assert!(matches!(
        events[1].status,
        InstallStatus::InProgress { done: 50, total: 100 }
    ));
    assert!(matches!(events[2].status, InstallStatus::Completed));
    assert!(matches!(events[3].phase, InstallPhase::Extracting));
}

#[test]
fn test_install_reporter_clone() {
    let sink = MockProgressSink::new();
    let reporter = InstallReporter::new("clone_test");
    let reporter_clone = reporter.clone();

    sink.emit(reporter.report(
        InstallPhase::Downloading,
        InstallStatus::Started { total_size: None },
    ));
    sink.emit(reporter_clone.report(InstallPhase::Downloading, InstallStatus::Completed));

    let events = sink.get_events();
    assert_eq!(events.len(), 2);
    assert_eq!(events[1].task_id, "clone_test");
}

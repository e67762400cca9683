use sshtrap::audit::AuditLog;
use sshtrap::pipeline::AuditPipeline;
use sshtrap::shutdown::{RunState, ShutdownCoordinator, Trigger};

fn record(id: u128) -> AuditLog {
    AuditLog::new(id, None)
}

#[test]
fn records_drain_in_arrival_order_exactly_once() {
    let mut pipeline = AuditPipeline::new();
    assert!(pipeline.enqueue(record(1)));
    assert!(pipeline.enqueue(record(2)));
    pipeline.close_intake();
    // A record enqueued after intake closes is refused and never persisted.
    assert!(!pipeline.enqueue(record(3)));
    while pipeline.persist_next() {}
    assert!(pipeline.is_drained());
    assert_eq!(pipeline.pending_count(), 0);
    assert_eq!(pipeline.persisted_count(), 2);
    assert_eq!(pipeline.last_persisted().unwrap().connection_id, 2);
}

#[test]
fn persist_follows_arrival_order() {
    let mut pipeline = AuditPipeline::new();
    assert!(pipeline.enqueue(record(10)));
    assert!(pipeline.enqueue(record(11)));
    assert!(pipeline.persist_next());
    assert_eq!(pipeline.last_persisted().unwrap().connection_id, 10);
    assert!(pipeline.persist_next());
    assert_eq!(pipeline.last_persisted().unwrap().connection_id, 11);
    assert!(!pipeline.persist_next());
}

#[test]
fn drain_without_records_is_immediate() {
    let mut pipeline = AuditPipeline::new();
    assert!(!pipeline.is_drained());
    pipeline.close_intake();
    assert!(pipeline.is_drained());
    assert!(pipeline.last_persisted().is_none());
}

#[test]
fn interrupt_yields_clean_exit_after_drain() {
    let mut coordinator = ShutdownCoordinator::new();
    assert_eq!(coordinator.current_state(), RunState::Running);
    coordinator.on_trigger(Trigger::Interrupt);
    assert_eq!(coordinator.current_state(), RunState::Draining);
    let clean = coordinator.on_drain_complete(None);
    assert!(clean);
    assert_eq!(coordinator.current_state(), RunState::Finished);
    assert!(coordinator.failure_message().is_none());
}

#[test]
fn first_error_becomes_the_failure_cause() {
    let mut coordinator = ShutdownCoordinator::new();
    coordinator.on_trigger(Trigger::EngineStopped {
        failure: Some("bind failed".to_string()),
    });
    let clean = coordinator.on_drain_complete(Some("sink write failed".to_string()));
    assert!(!clean);
    assert_eq!(coordinator.failure_message().as_deref(), Some("bind failed"));
}

#[test]
fn drain_error_surfaces_when_nothing_failed_earlier() {
    let mut coordinator = ShutdownCoordinator::new();
    coordinator.on_trigger(Trigger::WriterStopped { failure: None });
    let clean = coordinator.on_drain_complete(Some("sink write failed".to_string()));
    assert!(!clean);
    assert_eq!(
        coordinator.failure_message().as_deref(),
        Some("sink write failed")
    );
}

#[test]
fn shutdown_scenario_interrupt_drops_late_connections() {
    // Records finished before the interrupt fires are persisted exactly
    // once; a connection closed after intake closes never appears.
    let mut pipeline = AuditPipeline::new();
    assert!(pipeline.enqueue(record(100)));
    let mut coordinator = ShutdownCoordinator::new();
    coordinator.on_trigger(Trigger::Interrupt);
    pipeline.close_intake();
    assert!(!pipeline.enqueue(record(200)));
    while pipeline.persist_next() {}
    assert!(pipeline.is_drained());
    let clean = coordinator.on_drain_complete(None);
    assert!(clean);
    assert_eq!(pipeline.persisted_count(), 1);
    assert_eq!(pipeline.last_persisted().unwrap().connection_id, 100);
}

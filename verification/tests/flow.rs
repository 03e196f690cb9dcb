use rifts::flow::{is_volatile, BackpressureAction, BackpressureController, BackpressureStrategy};
use rifts::frame::Priority;

#[test]
fn accept_under_limit() {
    let mut bp = BackpressureController::new(100);
    assert_eq!(bp.try_enqueue(50), BackpressureAction::Accept);
    assert_eq!(bp.try_enqueue(40), BackpressureAction::Accept);
    assert_eq!(bp.current_bytes(), 90);
}

#[test]
fn pause_when_over_limit() {
    let mut bp = BackpressureController::new(100);
    bp.set_strategy(BackpressureStrategy::Pause);
    bp.try_enqueue(80);
    assert_eq!(bp.try_enqueue(50), BackpressureAction::Pause);
}

#[test]
fn disconnect_strategy() {
    let mut bp = BackpressureController::new(100);
    bp.set_strategy(BackpressureStrategy::Disconnect);
    bp.try_enqueue(80);
    assert_eq!(bp.try_enqueue(50), BackpressureAction::Disconnect);
}

#[test]
fn release_decrements() {
    let mut bp = BackpressureController::new(100);
    bp.try_enqueue(50);
    bp.release(30);
    assert_eq!(bp.current_bytes(), 20);
}

#[test]
fn overloaded_detection() {
    let mut bp = BackpressureController::new(100);
    bp.try_enqueue(95);
    assert!(bp.is_overloaded());
    bp.release(10);
    assert!(!bp.is_overloaded());
}

#[test]
fn volatile_filter() {
    assert!(is_volatile(Some(Priority::Volatile)));
    assert!(is_volatile(Some(Priority::Background)));
    assert!(!is_volatile(Some(Priority::Normal)));
    assert!(!is_volatile(None));
}

#[test]
fn rejected_offer_counts_events_and_keeps_queue() {
    let mut bp = BackpressureController::new(100);
    assert_eq!(bp.strategy(), BackpressureStrategy::Pause);
    bp.try_enqueue(80);
    assert_eq!(bp.try_enqueue(50), BackpressureAction::Pause);
    assert_eq!(bp.current_bytes(), 80);
    assert_eq!(bp.applied(), 1);
    assert_eq!(bp.flow_pause_count(), 1);
    bp.set_strategy(BackpressureStrategy::DropVolatile);
    assert_eq!(bp.try_enqueue(50), BackpressureAction::DropVolatile);
    assert_eq!(bp.volatile_drop_count(), 1);
    bp.set_strategy(BackpressureStrategy::CoalesceState);
    assert_eq!(bp.try_enqueue(50), BackpressureAction::CoalesceState);
    assert_eq!(bp.state_coalesce_count(), 1);
    bp.set_strategy(BackpressureStrategy::Disconnect);
    assert_eq!(bp.try_enqueue(50), BackpressureAction::Disconnect);
    assert_eq!(bp.slow_consumer_count(), 1);
    bp.set_strategy(BackpressureStrategy::Downgrade);
    assert_eq!(bp.try_enqueue(50), BackpressureAction::Downgrade);
    bp.set_strategy(BackpressureStrategy::SnapshotLater);
    assert_eq!(bp.try_enqueue(50), BackpressureAction::SnapshotLater);
    assert_eq!(bp.applied(), 6);
    assert_eq!(bp.current_bytes(), 80);
}

#[test]
fn available_and_resume_count() {
    let mut bp = BackpressureController::new(100);
    assert_eq!(bp.max_bytes(), 100);
    bp.try_enqueue(95);
    assert_eq!(bp.available(), 5);
    bp.release(10);
    assert_eq!(bp.flow_resume_count(), 1);
    bp.release(10);
    assert_eq!(bp.flow_resume_count(), 1);
    bp.record_dropped();
    assert_eq!(bp.dropped(), 1);
}

#[test]
fn default_strategy_is_pause() {
    assert_eq!(BackpressureStrategy::default(), BackpressureStrategy::Pause);
}

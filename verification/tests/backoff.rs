use engine_bridge::backoff::BackoffController;

#[test]
fn backoff_schedule_doubles_and_caps() {
    let mut b = BackoffController::new();
    let mut delays = Vec::new();
    for _ in 0..7 {
        delays.push(b.on_failure());
    }
    assert_eq!(delays, vec![1, 2, 4, 8, 10, 10, 10]);
}

#[test]
fn backoff_success_resets_to_one() {
    let mut b = BackoffController::new();
    for _ in 0..5 {
        b.on_failure();
    }
    assert_eq!(b.current_delay(), 10);
    b.on_success();
    assert_eq!(b.current_delay(), 1);
    assert_eq!(b.on_failure(), 1);
    assert_eq!(b.on_failure(), 2);
}

#[test]
fn backoff_starts_at_one() {
    let b = BackoffController::new();
    assert_eq!(b.current_delay(), 1);
}

use neural_translator::gesture::{DoubleTapState, DOUBLE_TAP_TIMEOUT_MS, MIN_TAP_INTERVAL_MS};

#[test]
fn test_valid_double_tap_200ms() {
    let mut state = DoubleTapState::new();

    // First tap
    let result1 = state.handle_tap(0);
    assert!(!result1, "First tap should not trigger double-tap");

    // Second tap 200ms later (valid interval)
    let result2 = state.handle_tap(200);
    assert!(result2, "Second tap after 200ms should trigger double-tap");
}

#[test]
fn test_valid_double_tap_boundary_51ms() {
    let mut state = DoubleTapState::new();

    // First tap
    state.handle_tap(0);

    // Second tap 51ms later (just above minimum valid interval)
    let result = state.handle_tap(51);
    assert!(result, "Second tap after 51ms should trigger double-tap");
}

#[test]
fn test_valid_double_tap_boundary_250ms() {
    let mut state = DoubleTapState::new();

    // First tap
    state.handle_tap(0);

    // Second tap 250ms later (well within valid interval)
    let result = state.handle_tap(250);
    assert!(result, "Second tap after 250ms should trigger double-tap");
}

#[test]
fn test_too_quick_tap_ignored() {
    let mut state = DoubleTapState::new();

    // First tap
    state.handle_tap(0);

    // Second tap 30ms later (below minimum threshold, should be ignored)
    let result = state.handle_tap(30);
    assert!(!result, "Too quick second tap should be ignored");

    assert!(state.is_waiting_for_second, "Should still be waiting for second tap");
}

#[test]
fn test_timeout_exceeded_new_first_tap() {
    let mut state = DoubleTapState::new();

    // First tap
    state.handle_tap(0);

    // 400ms later (exceeds timeout): should be treated as a new first tap
    let result = state.handle_tap(400);
    assert!(!result, "Tap after timeout should be treated as new first tap");

    assert!(state.is_waiting_for_second, "Should be waiting for second tap");
}

#[test]
fn test_single_tap_no_trigger() {
    let mut state = DoubleTapState::new();

    // Single tap
    let result = state.handle_tap(0);
    assert!(!result, "Single tap should not trigger double-tap");

    assert!(state.is_waiting_for_second, "Should be waiting for second tap");
    assert!(state.first_tap_time.is_some(), "First tap time should be recorded");
}

#[test]
fn test_triple_tap_behavior() {
    let mut state = DoubleTapState::new();

    // First tap
    state.handle_tap(0);

    // Second tap 100ms later (should trigger)
    let result2 = state.handle_tap(100);
    assert!(result2, "Second tap should trigger double-tap");

    // Third tap 100ms after that (should be treated as new first tap)
    let result3 = state.handle_tap(200);
    assert!(!result3, "Third tap should be treated as new first tap");
}

#[test]
fn test_initial_state() {
    let state = DoubleTapState::new();
    assert!(state.first_tap_time.is_none(), "Initial first_tap_time should be None");
    assert!(!state.is_waiting_for_second, "Initial is_waiting_for_second should be false");
}

#[test]
fn test_state_reset() {
    let mut state = DoubleTapState::new();

    // Set some state
    state.first_tap_time = Some(12345);
    state.is_waiting_for_second = true;

    // Reset
    state.reset();

    // Verify reset
    assert!(state.first_tap_time.is_none(), "first_tap_time should be None after reset");
    assert!(!state.is_waiting_for_second, "is_waiting_for_second should be false after reset");
}

#[test]
fn test_timing_constants() {
    assert_eq!(DOUBLE_TAP_TIMEOUT_MS, 300, "Double-tap timeout should be 300ms");
    assert_eq!(MIN_TAP_INTERVAL_MS, 50, "Minimum tap interval should be 50ms");
    assert!(MIN_TAP_INTERVAL_MS < DOUBLE_TAP_TIMEOUT_MS, "Min interval should be less than timeout");
}

#[test]
fn test_precise_timing_boundaries() {
    // Very short interval (should be ignored)
    let mut state = DoubleTapState::new();
    state.handle_tap(0);
    let result_20 = state.handle_tap(20);
    assert!(!result_20, "20ms should be ignored (too quick)");

    // Valid interval (should work)
    let mut state = DoubleTapState::new();
    state.handle_tap(0);
    let result_100 = state.handle_tap(100);
    assert!(result_100, "100ms should trigger double-tap");

    // Long interval (should time out)
    let mut state = DoubleTapState::new();
    state.handle_tap(0);
    let result_400 = state.handle_tap(400);
    assert!(!result_400, "400ms should timeout and be treated as new first tap");
}

#[test]
fn test_rapid_succession_taps() {
    let mut state = DoubleTapState::new();

    // First tap
    state.handle_tap(0);

    // Rapid taps (simulating key repeat): 5ms, 15ms, 30ms after the first
    for (i, t) in [5u64, 15, 30].iter().enumerate() {
        let result = state.handle_tap(*t);
        assert!(!result, "Rapid successive tap #{} should be ignored", i + 1);
    }

    assert!(
        state.is_waiting_for_second,
        "Should still be waiting for second tap after rapid succession"
    );

    // A properly timed tap (measured from the original first tap) still works
    let final_result = state.handle_tap(130);
    assert!(final_result, "Properly timed tap after rapid succession should work");
}

#[test]
fn test_ignored_tap_keeps_first_tap_time() {
    let mut state = DoubleTapState::new();
    state.handle_tap(0);
    let too_quick = state.handle_tap(20);
    assert!(!too_quick);
    assert_eq!(state.first_tap_time, Some(0), "noise must not move the reference point");

    // 220ms from the original first tap still confirms
    assert!(state.handle_tap(220));
}

#[test]
fn test_late_tap_becomes_reference_point() {
    let mut state = DoubleTapState::new();
    state.handle_tap(0);
    assert!(!state.handle_tap(400), "tap after the window must not confirm");
    assert_eq!(state.first_tap_time, Some(400), "the late tap opens a new window");
    assert!(state.handle_tap(600), "tap within the window of the new reference confirms");
}

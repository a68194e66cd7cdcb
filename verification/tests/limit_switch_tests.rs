use solar_tracker::limit_switch::{LimitSwitchGate, DEBOUNCE_MS};

#[test]
fn debounce_time_is_thirty_milliseconds() {
    assert_eq!(DEBOUNCE_MS, 30);
}

#[test]
fn bounce_then_hold_gives_exactly_one_home_event() {
    let mut gate = LimitSwitchGate::new(0);
    let mut events = 0;
    // bounces for 20 ms: the level alternates every millisecond
    for t in 0u64..20 {
        if gate.poll(t % 2 == 0, 1000 + t) {
            events += 1;
        }
    }
    // then holds pressed (low) for 100 ms
    for t in 20u64..=120 {
        if gate.poll(false, 1000 + t) {
            events += 1;
        }
    }
    assert_eq!(events, 1);
    assert!(gate.is_pressed());
    assert!(gate.zeroed_this_press());
}

#[test]
fn home_event_comes_thirty_milliseconds_after_the_press() {
    let mut gate = LimitSwitchGate::new(0);
    assert!(!gate.poll(false, 100));
    assert_eq!(gate.last_change_ms(), 100);
    assert!(!gate.poll(false, 129));
    assert!(gate.poll(false, 130));
    assert!(!gate.poll(false, 131));
    assert!(!gate.poll(false, 500));
}

#[test]
fn release_arms_the_gate_again() {
    let mut gate = LimitSwitchGate::new(0);
    assert!(!gate.poll(false, 0));
    assert!(gate.poll(false, 30));
    assert!(!gate.poll(true, 40));
    assert!(!gate.is_pressed());
    assert!(!gate.zeroed_this_press());
    assert!(!gate.poll(false, 50));
    assert!(!gate.poll(false, 79));
    assert!(gate.poll(false, 80));
}

#[test]
fn short_press_gives_no_event() {
    let mut gate = LimitSwitchGate::new(0);
    assert!(!gate.poll(false, 10));
    assert!(!gate.poll(false, 39));
    assert!(!gate.poll(true, 40));
    assert!(!gate.poll(true, 200));
}

#[test]
fn clock_that_steps_back_gives_no_event() {
    let mut gate = LimitSwitchGate::new(0);
    assert!(!gate.poll(false, 100));
    assert!(!gate.poll(false, 50));
}

use embassy_executor::event::EventRegister;

#[test]
fn fresh_register_sleeps() {
    let mut events = EventRegister::new();
    assert!(!events.wait_for_event());
}

#[test]
fn signal_wakes_the_next_wait() {
    let mut events = EventRegister::new();
    events.signal_event();
    assert!(events.wait_for_event());
}

#[test]
fn wait_consumes_the_event() {
    let mut events = EventRegister::new();
    events.signal_event();
    assert!(events.wait_for_event());
    assert!(!events.wait_for_event());
}

#[test]
fn pends_between_two_waits_wake_the_sleeper_exactly_once() {
    let mut events = EventRegister::new();
    // first wait entry: nothing pending, the context sleeps
    assert!(!events.wait_for_event());
    // any number of broadcasts before the next wait entry coalesce
    for _ in 0..5 {
        events.signal_event();
    }
    // the sleeper wakes at least once before re-entering its wait state
    assert!(events.wait_for_event());
    // and the coalesced event is spent: with no new work it re-sleeps
    assert!(!events.wait_for_event());
}

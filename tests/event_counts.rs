use type_driven_api_design::events::DiagnosticState;

#[test]
fn counts_start_at_zero() {
    let s = DiagnosticState::default();
    assert_eq!(s.events_emitted, 0);
    assert_eq!(s.events_received, 0);
}

#[test]
fn only_a_finished_timer_emits() {
    let mut s = DiagnosticState::default();
    assert_eq!(s.on_timer(false), None);
    assert_eq!(s.events_emitted, 0);
    assert_eq!(s.on_timer(true), Some(1));
    assert_eq!(s.on_timer(true), Some(2));
    assert_eq!(s.events_emitted, 2);
    assert_eq!(s.events_received, 0);
}

#[test]
fn received_events_are_counted_apart() {
    let mut s = DiagnosticState::default();
    s.on_timer(true);
    s.on_timer(true);
    s.on_timer(true);
    assert_eq!(s.on_event(), 1);
    assert_eq!(s.events_received, 1);
    assert_eq!(s.events_emitted, 3);
}

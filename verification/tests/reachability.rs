use frc_interface::buttons::ButtonState;
use frc_interface::buttons::LogicalButton;
use frc_interface::reachability::ButtonEventOutcome;
use frc_interface::reachability::LinkNotice;
use frc_interface::reachability::LinkState;
use frc_interface::reachability::ProbeOutcome;
use frc_interface::reachability::CONNECT_TIMEOUT_SECS;
use frc_interface::reachability::PING_INTERVAL_SECS;
use frc_interface::virtual_controller::VirtualController;

fn link(connected: bool, force_connected: bool) -> LinkState {
    LinkState { connected, force_connected }
}

#[test]
fn probe_timing_has_its_fixed_values() {
    assert_eq!(PING_INTERVAL_SECS, 15);
    assert_eq!(CONNECT_TIMEOUT_SECS, 2);
}

#[test]
fn new_link_is_down_and_not_forced() {
    assert_eq!(LinkState::new(), link(false, false));
    assert_eq!(LinkState::default(), link(false, false));
}

#[test]
fn ping_is_due_from_the_interval_on() {
    assert!(!LinkState::ping_due(0, 15000));
    assert!(!LinkState::ping_due(14999, 15000));
    assert!(LinkState::ping_due(15000, 15000));
    assert!(LinkState::ping_due(15001, 15000));
    assert!(LinkState::ping_due(0, 0));
    assert!(LinkState::ping_due(u64::MAX, u64::MAX));
    assert!(!LinkState::ping_due(u64::MAX - 1, u64::MAX));
}

#[test]
fn begin_ping_asks_for_a_probe_unless_forced() {
    for connected in [true, false] {
        let mut free = link(connected, false);
        assert!(free.begin_ping());
        assert_eq!(free, link(connected, false));

        let mut forced = link(connected, true);
        assert!(!forced.begin_ping());
        assert_eq!(forced, link(true, true));
    }
}

#[test]
fn probe_that_reaches_brings_the_link_up_with_one_notice() {
    let mut state = link(false, false);
    assert_eq!(state.record_probe(ProbeOutcome::Reached), Some(LinkNotice::Established));
    assert_eq!(state, link(true, false));
    assert_eq!(state.record_probe(ProbeOutcome::Reached), None);
    assert_eq!(state, link(true, false));
}

#[test]
fn probe_that_fails_brings_the_link_down_with_one_notice() {
    let cases = [
        (ProbeOutcome::TimedOut, LinkNotice::TimedOut),
        (ProbeOutcome::Refused, LinkNotice::Refused),
        (ProbeOutcome::Failed, LinkNotice::Failed),
    ];
    for (outcome, notice) in cases {
        let mut state = link(true, false);
        assert_eq!(state.record_probe(outcome), Some(notice));
        assert_eq!(state, link(false, false));
        assert_eq!(state.record_probe(outcome), None);
        assert_eq!(state, link(false, false));
    }
}

#[test]
fn forced_link_is_up_whatever_the_probe_says() {
    let outcomes = [
        ProbeOutcome::Reached,
        ProbeOutcome::TimedOut,
        ProbeOutcome::Refused,
        ProbeOutcome::Failed,
    ];
    for outcome in outcomes {
        for connected in [true, false] {
            let mut state = link(connected, true);
            assert_eq!(state.record_probe(outcome), None);
            assert_eq!(state, link(true, true));
        }
    }
}

#[test]
fn forcing_raises_the_link_at_once_and_needs_no_probe() {
    for connected in [true, false] {
        let mut state = link(connected, false);
        assert!(!state.toggle_force_connected());
        assert_eq!(state, link(true, true));
    }
}

#[test]
fn releasing_the_override_asks_for_a_probe() {
    for connected in [true, false] {
        let mut state = link(connected, true);
        assert!(state.toggle_force_connected());
        assert_eq!(state, link(connected, false));
    }
}

#[test]
fn released_override_lets_the_next_probe_settle_the_link() {
    let mut state = LinkState::new();
    assert!(!state.toggle_force_connected());
    assert!(state.connected);
    assert!(state.toggle_force_connected());
    assert!(state.begin_ping());
    assert_eq!(state.record_probe(ProbeOutcome::Refused), Some(LinkNotice::Refused));
    assert_eq!(state, link(false, false));
}

#[test]
fn button_event_is_dropped_while_the_link_is_down() {
    let state = link(false, false);
    let mut controller = VirtualController::new();
    for pressed in [true, false] {
        assert_eq!(
            state.forward_button(&mut controller, "climb", pressed),
            ButtonEventOutcome::NotConnected
        );
        assert_eq!(controller.snapshot(), ButtonState::new());
    }
    assert_eq!(
        state.forward_button(&mut controller, "bogus", true),
        ButtonEventOutcome::NotConnected
    );
}

#[test]
fn button_event_reaches_the_store_while_the_link_is_up() {
    for force_connected in [true, false] {
        let state = link(true, force_connected);
        let mut controller = VirtualController::new();
        assert_eq!(
            state.forward_button(&mut controller, "climb", true),
            ButtonEventOutcome::Stored
        );
        assert!(controller.snapshot().is_pressed(LogicalButton::Climb));
        assert_eq!(
            state.forward_button(&mut controller, "climb", false),
            ButtonEventOutcome::Stored
        );
        assert_eq!(controller.snapshot(), ButtonState::new());
    }
}

#[test]
fn unknown_button_event_is_reported_and_changes_nothing() {
    let state = link(true, false);
    let mut controller = VirtualController::new();
    assert_eq!(
        state.forward_button(&mut controller, "coral", true),
        ButtonEventOutcome::Stored
    );
    let before = controller.snapshot();
    assert_eq!(
        state.forward_button(&mut controller, "corral", true),
        ButtonEventOutcome::UnknownButton
    );
    assert_eq!(controller.snapshot(), before);
}

use aegis::event::{transitions, EventLog, Transition};
use aegis::model::{Action, Fault};
use aegis::sim::SimState;

#[derive(Clone, Copy, Debug, PartialEq)]
enum Kind {
    ChargerFaulted,
    BeaconLost,
}

#[test]
fn log_records_in_order() {
    let mut log = EventLog::new();
    assert!(log.is_empty());
    log.record(1, Kind::ChargerFaulted);
    log.record(5, Kind::BeaconLost);
    assert_eq!(log.len(), 2);
    assert_eq!(log.events[0].tick, 1);
    assert_eq!(log.events[1].tick, 5);
}

#[test]
fn recording_keeps_earlier_events() {
    let mut log: EventLog<Kind> = EventLog::default();
    log.record(3, Kind::BeaconLost);
    log.record(2, Kind::ChargerFaulted);
    assert_eq!(log.events[0].kind, Kind::BeaconLost);
    assert_eq!(log.events[1].kind, Kind::ChargerFaulted);
    assert!(!log.is_empty());
}

#[test]
fn a_jam_onset_is_logged_as_jam_then_beacon_loss() {
    let mut s = SimState::initial(Fault::Interference, false, 1);
    let before = s;
    s.advance_power(true, true);
    assert_eq!(
        transitions(&before, &s),
        vec![Transition::BeaconJammed, Transition::BeaconLost]
    );
}

#[test]
fn halting_and_power_loss_are_logged() {
    let mut s = SimState::initial(Fault::PowerCascade, false, 0);
    let before = s;
    s.advance_power(false, false);
    s.apply_action(Action::HaltB, 6);
    assert_eq!(
        transitions(&before, &s),
        vec![Transition::AOffline, Transition::BeaconLost, Transition::BHalted]
    );
    assert!(transitions(&s, &s).is_empty());
}

#[test]
fn recovery_and_resume_are_logged() {
    let mut s = SimState::initial(Fault::Interference, false, 1);
    s.advance_power(true, true);
    s.apply_action(Action::HaltB, 6);
    s.apply_action(Action::SwitchBeaconChannel, 6);
    let before = s;
    s.advance_power(true, true);
    s.settle_motion(false, true);
    assert_eq!(
        transitions(&before, &s),
        vec![
            Transition::BeaconRestored,
            Transition::BResumed,
            Transition::Recovered
        ]
    );
}

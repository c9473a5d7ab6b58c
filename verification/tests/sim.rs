use aegis::model::{Action, Fault, RobotId, Symptom};
use aegis::sim::{
    action_changes_state, diagnose, diagnose_coarse, scenario_score, ControlConfig, Controller,
    SimOutcome, SimState,
};

#[test]
fn initial_state_depends_on_the_fault() {
    let p = SimState::initial(Fault::PowerCascade, true, 0);
    assert!(p.charger_faulted && p.a_online && p.beacon_up && p.b_in_motion);
    assert!(!p.b_halted && !p.dangerous_seen && p.recovered_tick.is_none());
    assert_eq!(p.beacon_source, RobotId::A);
    let j = SimState::initial(Fault::Interference, false, 7);
    assert!(!j.charger_faulted && !j.c_ready && j.fault_onset == 7);
}

#[test]
fn a_jam_strikes_at_its_onset_and_persists() {
    let mut s = SimState::initial(Fault::Interference, false, 3);
    for _ in 0..2 {
        s.advance_power(true, true);
        assert!(s.beacon_up);
    }
    s.advance_power(true, true);
    assert_eq!(s.tick, 3);
    assert!(s.beacon_jammed && !s.beacon_up && s.a_online);
    for _ in 0..10 {
        s.advance_power(true, true);
        assert!(!s.beacon_up, "a jam does not clear by itself");
    }
}

#[test]
fn hysteresis_keeps_a_offline_until_it_recovers() {
    let mut s = SimState::initial(Fault::PowerCascade, false, 0);
    s.advance_power(false, false);
    assert!(!s.a_online);
    // above the offline level but not yet the online level: still offline
    s.advance_power(true, false);
    assert!(!s.a_online && !s.beacon_up);
    s.advance_power(true, true);
    assert!(s.a_online && s.beacon_up);
}

#[test]
fn a_restart_holds_a_offline_for_its_downtime() {
    let mut s = SimState::initial(Fault::PowerCascade, false, 0);
    s.advance_power(true, true);
    s.apply_action(Action::RestartRobotA, 3);
    assert_eq!(s.a_restart_until, Some(4));
    assert!(!s.a_online);
    s.advance_power(true, true); // t=2
    s.advance_power(true, true); // t=3
    assert!(!s.a_online && !s.beacon_up);
    s.advance_power(true, true); // t=4: restart over
    assert!(s.a_online && s.beacon_up && s.a_restart_until.is_none());
}

#[test]
fn halted_b_never_becomes_dangerous() {
    let mut s = SimState::initial(Fault::PowerCascade, false, 0);
    s.advance_power(false, false);
    s.apply_action(Action::HaltB, 6);
    for _ in 0..20 {
        s.advance_power(false, false);
        s.settle_motion(true, false);
        assert!(!s.dangerous_seen);
        assert!(s.b_halted);
    }
    let o = s.outcome(false);
    assert_eq!(o, SimOutcome { safe: true, successful: false, mttr: None });
    assert_eq!(scenario_score(&o), 1);
}

#[test]
fn drifting_b_trips_the_danger_latch_for_good() {
    let mut s = SimState::initial(Fault::Brownout, false, 1);
    s.advance_power(true, true);
    s.settle_motion(true, false);
    assert!(s.dangerous_seen);
    s.settle_motion(false, true);
    assert!(s.dangerous_seen, "danger is a latch");
}

#[test]
fn each_fix_works_for_its_fault_and_no_other() {
    for (fault, fix, other) in [
        (Fault::Interference, Action::SwitchBeaconChannel, Action::FailoverCharger),
        (Fault::Brownout, Action::FailoverCharger, Action::SwitchBeaconChannel),
    ] {
        let mut s = SimState::initial(fault, false, 1);
        s.advance_power(true, true);
        assert!(!s.beacon_up);
        let mut wrong = s;
        s.apply_action(fix, 6);
        s.advance_power(true, true);
        assert!(s.beacon_up, "{fix:?} should fix {fault:?}");
        wrong.apply_action(other, 6);
        wrong.advance_power(true, true);
        assert!(!wrong.beacon_up, "{other:?} should not fix {fault:?}");
    }
}

#[test]
fn promoting_a_ready_c_restores_the_beacon() {
    let mut s = SimState::initial(Fault::PowerCascade, true, 0);
    s.advance_power(false, false);
    s.apply_action(Action::PromoteCToBeacon, 6);
    s.advance_power(false, false);
    assert!(s.beacon_up && !s.a_online);
    let mut t = SimState::initial(Fault::PowerCascade, false, 0);
    t.advance_power(false, false);
    t.apply_action(Action::PromoteCToBeacon, 6);
    t.advance_power(false, false);
    assert!(!t.beacon_up);
}

#[test]
fn recovery_is_stamped_once_and_measured_from_the_decision() {
    let mut s = SimState::initial(Fault::Interference, true, 2);
    s.advance_power(true, true);
    s.advance_power(true, true);
    s.decision_tick = s.tick;
    s.apply_action(Action::SwitchBeaconChannel, 6);
    s.advance_power(true, true);
    s.settle_motion(false, false);
    assert!(s.recovered_tick.is_none());
    s.advance_power(true, true);
    s.settle_motion(false, true);
    assert_eq!(s.recovered_tick, Some(4));
    s.advance_power(true, true);
    s.settle_motion(false, true);
    assert_eq!(s.recovered_tick, Some(4));
    let o = s.outcome(true);
    assert_eq!(o, SimOutcome { safe: true, successful: true, mttr: Some(2) });
    assert_eq!(scenario_score(&o), 2);
}

#[test]
fn scores_penalize_danger_hard() {
    let score = |safe, successful| scenario_score(&SimOutcome { safe, successful, mttr: None });
    assert_eq!(score(true, true), 2);
    assert_eq!(score(true, false), 1);
    assert_eq!(score(false, true), -1);
    assert_eq!(score(false, false), -2);
}

#[test]
fn diagnosis_names_the_root_cause() {
    let mut p = SimState::initial(Fault::PowerCascade, false, 0);
    assert_eq!(diagnose(&p), Symptom::BatteryDraining);
    p.advance_power(false, false);
    assert_eq!(diagnose(&p), Symptom::BeaconLostPower);
    assert_eq!(diagnose_coarse(&p), Symptom::BeaconLostBDrifting);

    let mut j = SimState::initial(Fault::Interference, false, 1);
    assert_eq!(diagnose(&j), Symptom::Nominal);
    assert_eq!(diagnose_coarse(&j), Symptom::Nominal);
    j.advance_power(true, true);
    assert_eq!(diagnose(&j), Symptom::BeaconLostInterference);
    assert_eq!(diagnose_coarse(&j), Symptom::BeaconLostBDrifting);

    let mut b = SimState::initial(Fault::Brownout, false, 1);
    b.advance_power(true, true);
    assert_eq!(diagnose(&b), Symptom::BeaconLostBrownout);
    // swap the jam/brownout call: the diagnosis swaps with it
    std::mem::swap(&mut b.beacon_jammed, &mut b.tx_degraded);
    assert_eq!(diagnose(&b), Symptom::BeaconLostInterference);
}

#[test]
fn no_op_actions_are_recognised() {
    let mut s = SimState::initial(Fault::Interference, false, 1);
    assert!(!action_changes_state(Action::DoNothing, &s));
    assert!(!action_changes_state(Action::SwitchBeaconChannel, &s));
    assert!(action_changes_state(Action::HaltB, &s));
    s.apply_action(Action::HaltB, 6);
    assert!(!action_changes_state(Action::HaltB, &s));
    s.apply_action(Action::PromoteCToBeacon, 6);
    assert!(!action_changes_state(Action::PromoteCToBeacon, &s));
    s.apply_action(Action::FailoverCharger, 6);
    assert!(!action_changes_state(Action::FailoverCharger, &s));
    assert!(action_changes_state(Action::RestartRobotA, &s));
}

#[test]
fn controller_opens_the_incident_and_spends_its_budget() {
    let ctl = ControlConfig::default_loop();
    assert_eq!((ctl.interval, ctl.max_actions), (2, 3));
    let mut c = Controller::new();
    let mut s = SimState::initial(Fault::PowerCascade, false, 0);
    s.recovered_tick = Some(0);
    // beacon up: nothing to decide
    assert!(!c.begin_tick(&mut s, &ctl));
    assert!(!c.incident_open);
    s.advance_power(false, false);
    assert!(c.begin_tick(&mut s, &ctl));
    assert!(c.incident_open);
    assert_eq!(s.decision_tick, 1);
    assert_eq!(s.recovered_tick, None);
    assert!(c.commit(&mut s, Action::HaltB, 6, &ctl));
    assert_eq!(c.actions_taken, 1);
    assert_eq!(c.last_decision, Some(1));
    // the next decision waits `interval` ticks
    s.advance_power(false, false);
    assert!(!c.begin_tick(&mut s, &ctl));
    s.advance_power(false, false);
    assert!(c.begin_tick(&mut s, &ctl));
    // a no-op is not charged to the budget
    assert!(!c.commit(&mut s, Action::HaltB, 6, &ctl));
    assert_eq!(c.actions_taken, 1);
    s.advance_power(false, false);
    s.advance_power(false, false);
    assert!(c.begin_tick(&mut s, &ctl));
    assert!(c.commit(&mut s, Action::FailoverCharger, 6, &ctl));
    s.advance_power(false, false);
    s.advance_power(false, false);
    assert!(c.begin_tick(&mut s, &ctl));
    assert!(c.commit(&mut s, Action::PromoteCToBeacon, 6, &ctl));
    assert_eq!(c.actions_taken, 3);
    s.advance_power(false, false);
    s.advance_power(false, false);
    assert!(!c.begin_tick(&mut s, &ctl), "budget spent");
}

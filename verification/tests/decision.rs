use aegis::decision::{Arm, Policy};
use aegis::model::{Action, Fault};
use aegis::sim::SimState;

#[test]
fn policy_forbids_restart_while_b_moves() {
    let mut s = SimState::initial(Fault::PowerCascade, true, 0);
    let pol = Policy;
    assert!(
        !pol.allows(Action::RestartRobotA, &s),
        "B is moving -> restart forbidden"
    );
    s.b_halted = true;
    assert!(
        pol.allows(Action::RestartRobotA, &s),
        "B halted -> restart allowed"
    );
    assert!(pol.allows(Action::HaltB, &s));
}

#[test]
fn candidates_drop_restart_while_b_moves() {
    let s = SimState::initial(Fault::Interference, false, 5);
    assert_eq!(
        Policy.candidates(&s),
        vec![
            Action::DoNothing,
            Action::FailoverCharger,
            Action::PromoteCToBeacon,
            Action::HaltB,
            Action::SwitchBeaconChannel,
        ]
    );
}

#[test]
fn candidates_are_everything_once_b_is_halted() {
    let mut s = SimState::initial(Fault::Brownout, true, 4);
    s.b_halted = true;
    assert_eq!(Policy.candidates(&s), Action::all().to_vec());
}

#[test]
fn arm_names_are_exact() {
    assert_eq!(Arm::Reactive.name(), "Reactive");
    assert_eq!(Arm::MemoryOnly.name(), "Memory-only");
    assert_eq!(Arm::FullAegis.name(), "Full Aegis");
    assert_eq!(Arm::FullAegisRobust.name(), "Full Aegis+");
}

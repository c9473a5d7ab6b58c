use aegis::model::{Action, Fault, RobotId, Symptom};
use std::collections::HashSet;

#[test]
fn actions_enumerate_with_unique_labels() {
    let all = Action::all();
    assert_eq!(all.len(), 6);
    let labels: HashSet<_> = all.iter().map(|a| a.label()).collect();
    assert_eq!(labels.len(), 6, "every action label must be distinct");
}

#[test]
fn actions_come_in_a_fixed_order() {
    assert_eq!(
        Action::all(),
        [
            Action::DoNothing,
            Action::FailoverCharger,
            Action::RestartRobotA,
            Action::PromoteCToBeacon,
            Action::HaltB,
            Action::SwitchBeaconChannel,
        ]
    );
}

#[test]
fn action_labels_are_exact() {
    assert_eq!(Action::DoNothing.label(), "do-nothing");
    assert_eq!(Action::FailoverCharger.label(), "failover-charger");
    assert_eq!(Action::RestartRobotA.label(), "restart-A");
    assert_eq!(Action::PromoteCToBeacon.label(), "promote-C-beacon");
    assert_eq!(Action::HaltB.label(), "halt-B");
    assert_eq!(Action::SwitchBeaconChannel.label(), "switch-channel");
}

#[test]
fn fault_symptom_and_robot_labels_are_exact() {
    assert_eq!(Fault::PowerCascade.label(), "power-cascade");
    assert_eq!(Fault::Interference.label(), "interference");
    assert_eq!(Fault::Brownout.label(), "brownout");
    assert_eq!(Symptom::Nominal.label(), "nominal");
    assert_eq!(Symptom::BatteryDraining.label(), "battery-draining");
    assert_eq!(Symptom::BeaconLostBDrifting.label(), "beacon-lost-B-drifting");
    assert_eq!(Symptom::BeaconLostPower.label(), "beacon-lost-power");
    assert_eq!(Symptom::BeaconLostInterference.label(), "beacon-lost-interference");
    assert_eq!(Symptom::BeaconLostBrownout.label(), "beacon-lost-brownout");
    assert_eq!(RobotId::A.label(), "A");
    assert_eq!(RobotId::B.label(), "B");
    assert_eq!(RobotId::C.label(), "C");
}

use aegis::event::Transition;
use aegis::replay::b_state;

#[test]
fn b_state_follows_its_priority_order() {
    assert_eq!(b_state(true, true, true, false), "DANGER");
    assert_eq!(b_state(false, true, true, false), "halted");
    assert_eq!(b_state(false, false, true, false), "ok");
    assert_eq!(b_state(false, false, false, false), "drift");
    assert_eq!(b_state(false, false, false, true), "moving");
}

#[test]
fn transition_notes_read_as_the_timeline_prints_them() {
    assert_eq!(Transition::BeaconJammed.note(), "beacon jammed (interference)");
    assert_eq!(Transition::BeaconLost.note(), "beacon lost");
    assert_eq!(Transition::ChannelCleared.note(), "channel cleared");
    assert_eq!(Transition::BeaconRestored.note(), "beacon restored");
    assert_eq!(Transition::Recovered.note(), "recovered");
    assert_eq!(Transition::AOffline.note(), "robot A dropped offline");
    assert_eq!(Transition::BHalted.note(), "B halted (safe-mode)");
    assert_eq!(Transition::DangerOnset.note(), "DANGER: B moving without localization");
}

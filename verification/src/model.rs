//! Core domain model shared across the runtime: robot identities, the root
//! causes a scenario can carry, the action space and the diagnosed symptoms.
use vstd::prelude::*;

verus! {

/// The three robots in the demo fleet.
/// A = beacon anchor, B = depends on A's beacon to localize, C = spare.
#[derive(Clone, Copy, PartialEq, Eq, Structural, Hash, Debug)]
pub enum RobotId {
    A,
    B,
    C,
}

impl RobotId {
    pub open spec fn spec_label(self) -> Seq<char> {
        match self {
            RobotId::A => "A"@,
            RobotId::B => "B"@,
            RobotId::C => "C"@,
        }
    }

    /// The one-letter name of the robot (what the timeline prints).
    pub fn label(&self) -> (s: &'static str)
        ensures
            s@ == self.spec_label(),
    {
        match self {
            RobotId::A => "A",
            RobotId::B => "B",
            RobotId::C => "C",
        }
    }
}

/// The three independent root causes a scenario can carry. They surface with
/// the same symptom (B loses localization) but demand *different* fixes, which
/// is what makes diagnosis matter.
#[derive(Clone, Copy, PartialEq, Eq, Structural, Hash, Debug)]
pub enum Fault {
    /// Charger fault: A drains, drops offline, and its beacon goes dark.
    /// Root fix: recover A's power (failover the charger).
    PowerCascade,
    /// A is healthy, but radio interference jams its beacon channel.
    /// Root fix: retune the beacon to a clear channel.
    Interference,
    /// A is healthy and on a clear channel, but its transmitter has degraded.
    /// Root fix: power-cycle the radio (failover the charger). Looks identical
    /// to interference in the obvious signals; only the signal reading differs.
    Brownout,
}

impl Fault {
    pub open spec fn spec_label(self) -> Seq<char> {
        match self {
            Fault::PowerCascade => "power-cascade"@,
            Fault::Interference => "interference"@,
            Fault::Brownout => "brownout"@,
        }
    }

    pub fn label(&self) -> (s: &'static str)
        ensures
            s@ == self.spec_label(),
    {
        match self {
            Fault::PowerCascade => "power-cascade",
            Fault::Interference => "interference",
            Fault::Brownout => "brownout",
        }
    }
}

/// Candidate recovery actions the runtime can choose between at a decision point.
#[derive(Clone, Copy, PartialEq, Eq, Structural, Hash, Debug)]
pub enum Action {
    /// Do nothing this incident.
    DoNothing,
    /// Switch A onto the backup charger: recovers A's power (and power-cycles
    /// its radio), but recharge takes time, leaving a window where B keeps
    /// drifting.
    FailoverCharger,
    /// Restart robot A. A plausible runbook reflex, but it drops the beacon for
    /// the restart window and never touches the battery.
    RestartRobotA,
    /// Promote C to beacon anchor so B localizes off C immediately.
    /// Ideal if C is actually ready; useless (and dangerous) if it is not.
    PromoteCToBeacon,
    /// Safe-mode: halt B's motion. Always safe, never a full recovery on its own.
    HaltB,
    /// Retune A's beacon to a clear channel: the root fix for interference,
    /// useless against a power cascade or a brownout.
    SwitchBeaconChannel,
}

/// Every action, in the order the deciders consider them.
pub open spec fn all_actions() -> Seq<Action> {
    seq![
        Action::DoNothing,
        Action::FailoverCharger,
        Action::RestartRobotA,
        Action::PromoteCToBeacon,
        Action::HaltB,
        Action::SwitchBeaconChannel,
    ]
}

impl Action {
    /// The whole action space, in a fixed order.
    pub fn all() -> (r: [Action; 6])
        ensures
            r@ == all_actions(),
    {
        let r = [
            Action::DoNothing,
            Action::FailoverCharger,
            Action::RestartRobotA,
            Action::PromoteCToBeacon,
            Action::HaltB,
            Action::SwitchBeaconChannel,
        ];
        assert(r@ =~= all_actions());
        r
    }

    pub open spec fn spec_label(self) -> Seq<char> {
        match self {
            Action::DoNothing => "do-nothing"@,
            Action::FailoverCharger => "failover-charger"@,
            Action::RestartRobotA => "restart-A"@,
            Action::PromoteCToBeacon => "promote-C-beacon"@,
            Action::HaltB => "halt-B"@,
            Action::SwitchBeaconChannel => "switch-channel"@,
        }
    }

    /// The action's name as printed in timelines and tables.
    pub fn label(&self) -> (s: &'static str)
        ensures
            s@ == self.spec_label(),
    {
        match self {
            Action::DoNothing => "do-nothing",
            Action::FailoverCharger => "failover-charger",
            Action::RestartRobotA => "restart-A",
            Action::PromoteCToBeacon => "promote-C-beacon",
            Action::HaltB => "halt-B",
            Action::SwitchBeaconChannel => "switch-channel",
        }
    }
}

/// The action space enumerates every action exactly once.
pub proof fn lemma_all_actions_enumerate_each_once(a: Action)
    ensures
        all_actions().len() == 6,
        all_actions().contains(a),
        forall|i: int, j: int|
            0 <= i < j < all_actions().len() ==> all_actions()[i] != all_actions()[j],
{
    let s = all_actions();
    match a {
        Action::DoNothing => assert(s[0] == a),
        Action::FailoverCharger => assert(s[1] == a),
        Action::RestartRobotA => assert(s[2] == a),
        Action::PromoteCToBeacon => assert(s[3] == a),
        Action::HaltB => assert(s[4] == a),
        Action::SwitchBeaconChannel => assert(s[5] == a),
    }
}

/// Distinct actions have distinct labels, so a label names its action.
pub proof fn lemma_action_labels_distinct(a: Action, b: Action)
    requires
        a != b,
    ensures
        a.spec_label() != b.spec_label(),
{
    reveal_strlit("do-nothing");
    reveal_strlit("failover-charger");
    reveal_strlit("restart-A");
    reveal_strlit("promote-C-beacon");
    reveal_strlit("halt-B");
    reveal_strlit("switch-channel");
    if a.spec_label().len() == b.spec_label().len() {
        assert(a.spec_label()[0] != b.spec_label()[0]);
    }
}

/// A compact description of "what's wrong right now", produced by diagnosis and
/// used as the memory lookup key and the trigger for the deciders.
#[derive(Clone, Copy, PartialEq, Eq, Structural, Hash, Debug)]
pub enum Symptom {
    Nominal,
    BatteryDraining,
    /// Beacon lost, B drifting, root cause unknown (the coarse symptom, used by
    /// the no-diagnosis baseline).
    BeaconLostBDrifting,
    /// Beacon lost because A lost power (A offline).
    BeaconLostPower,
    /// Beacon lost because A's channel is jammed (A still online).
    BeaconLostInterference,
    /// Beacon lost because A's transmitter degraded (A online, channel clear).
    BeaconLostBrownout,
}

impl Symptom {
    pub open spec fn spec_label(self) -> Seq<char> {
        match self {
            Symptom::Nominal => "nominal"@,
            Symptom::BatteryDraining => "battery-draining"@,
            Symptom::BeaconLostBDrifting => "beacon-lost-B-drifting"@,
            Symptom::BeaconLostPower => "beacon-lost-power"@,
            Symptom::BeaconLostInterference => "beacon-lost-interference"@,
            Symptom::BeaconLostBrownout => "beacon-lost-brownout"@,
        }
    }

    pub fn label(&self) -> (s: &'static str)
        ensures
            s@ == self.spec_label(),
    {
        match self {
            Symptom::Nominal => "nominal",
            Symptom::BatteryDraining => "battery-draining",
            Symptom::BeaconLostBDrifting => "beacon-lost-B-drifting",
            Symptom::BeaconLostPower => "beacon-lost-power",
            Symptom::BeaconLostInterference => "beacon-lost-interference",
            Symptom::BeaconLostBrownout => "beacon-lost-brownout",
        }
    }
}

} // verus!

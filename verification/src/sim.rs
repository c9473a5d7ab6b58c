//! The discrete engine of the fleet: beacon, robot status, restart timer,
//! fault onset, the danger and recovery latches, and the recovery actions.
//!
//! Every tick has two halves. First the power half: time advances, a pending
//! fault strikes, A's restart timer runs out, A goes on- or offline with
//! hysteresis and the beacon is recomputed. Then the motion half: a parked B
//! resumes once it is safe, and the danger and recovery latches are updated.
//! The continuous quantities (A's battery, B's localization) live with the
//! caller, which hands each half the threshold comparisons it needs. The same
//! engine drives both the real world and the twin's lookahead.
use vstd::prelude::*;

use crate::model::{Action, Fault, RobotId, Symptom};
use crate::rng::{add64, mul64, GAMMA};

verus! {

/// The outcome the experiment scores.
#[derive(Clone, Copy, PartialEq, Eq, Structural, Debug)]
pub struct SimOutcome {
    /// No dangerous (collision-risk) state ever occurred.
    pub safe: bool,
    /// B ended the horizon back on task and well-localized.
    pub successful: bool,
    /// Ticks from the decision point to recovery, if it recovered.
    pub mttr: Option<u32>,
}

/// The discrete world state. For the real world this is ground truth; for the
/// twin it is the runtime's (imperfect) belief.
#[derive(Clone, Copy, PartialEq, Eq, Structural, Debug)]
pub struct SimState {
    pub tick: u32,
    pub decision_tick: u32,
    /// The root cause this scenario carries.
    pub fault: Fault,
    /// For interference and brownout: the tick at which the fault strikes.
    pub fault_onset: u32,
    pub charger_faulted: bool,
    pub failover_active: bool,
    pub a_online: bool,
    pub a_restart_until: Option<u32>,
    pub beacon_source: RobotId,
    pub beacon_up: bool,
    /// A's beacon channel is jammed (interference).
    pub beacon_jammed: bool,
    /// A's transmitter is degraded (brownout).
    pub tx_degraded: bool,
    pub c_ready: bool,
    pub b_in_motion: bool,
    pub b_halted: bool,
    pub dangerous_seen: bool,
    pub recovered_tick: Option<u32>,
}

/// Whether the current beacon source is actually transmitting.
pub open spec fn beacon_available(s: SimState) -> bool {
    match s.beacon_source {
        RobotId::A => s.a_online && !s.beacon_jammed && !s.tx_degraded,
        RobotId::C => s.c_ready,
        RobotId::B => false,
    }
}

/// The power half of a tick. `above_offline`: A's battery is at or above the
/// level below which A drops offline; `above_online`: it is at or above the
/// level A needs to come back online.
pub open spec fn power_step(s: SimState, above_offline: bool, above_online: bool) -> SimState {
    let tick = (s.tick + 1) as u32;
    let strikes = tick == s.fault_onset;
    let jammed = s.beacon_jammed || (strikes && s.fault == Fault::Interference);
    let degraded = s.tx_degraded || (strikes && s.fault == Fault::Brownout);
    let restart = match s.a_restart_until {
        Some(until) => if tick >= until { None } else { Some(until) },
        None => None,
    };
    let online = if restart is Some {
        false
    } else if s.a_online {
        above_offline
    } else {
        above_online
    };
    let next = SimState {
        tick,
        beacon_jammed: jammed,
        tx_degraded: degraded,
        a_restart_until: restart,
        a_online: online,
        ..s
    };
    SimState { beacon_up: beacon_available(next), ..next }
}

/// The motion half of a tick. `below_safe`: B's localization is below the safe
/// minimum; `well_localized`: it is at or above the fully-recovered level.
pub open spec fn motion_step(s: SimState, below_safe: bool, well_localized: bool) -> SimState {
    let halted = s.b_halted && !(s.beacon_up && well_localized);
    let moving = s.b_in_motion && !halted;
    SimState {
        b_halted: halted,
        dangerous_seen: s.dangerous_seen || (moving && below_safe),
        recovered_tick: if s.recovered_tick is None && moving && s.beacon_up && well_localized {
            Some(s.tick)
        } else {
            s.recovered_tick
        },
        ..s
    }
}

/// The effect of a recovery action at the decision point.
pub open spec fn action_effect(s: SimState, a: Action, restart_downtime: u32) -> SimState {
    match a {
        Action::DoNothing => s,
        Action::FailoverCharger => SimState { failover_active: true, tx_degraded: false, ..s },
        Action::RestartRobotA => SimState {
            a_restart_until: Some((s.tick + restart_downtime) as u32),
            a_online: false,
            ..s
        },
        Action::PromoteCToBeacon => SimState { beacon_source: RobotId::C, ..s },
        Action::HaltB => SimState { b_halted: true, ..s },
        Action::SwitchBeaconChannel => SimState { beacon_jammed: false, ..s },
    }
}

/// Whether applying `a` would do anything at all.
pub open spec fn changes_state(a: Action, s: SimState) -> bool {
    match a {
        Action::DoNothing => false,
        Action::FailoverCharger => !s.failover_active || s.tx_degraded,
        Action::RestartRobotA => true,
        Action::PromoteCToBeacon => s.beacon_source != RobotId::C,
        Action::HaltB => !s.b_halted,
        Action::SwitchBeaconChannel => s.beacon_jammed,
    }
}

/// B is back on task: moving, not parked, with a beacon, and well-localized.
pub open spec fn on_task(s: SimState, well_localized: bool) -> bool {
    s.b_in_motion && !s.b_halted && s.beacon_up && well_localized
}

/// The scored outcome of a finished rollout.
pub open spec fn outcome_of(s: SimState, well_localized: bool) -> SimOutcome {
    SimOutcome {
        safe: !s.dangerous_seen,
        successful: on_task(s, well_localized),
        mttr: match s.recovered_tick {
            Some(t) => Some(if t >= s.decision_tick { (t - s.decision_tick) as u32 } else { 0u32 }),
            None => None,
        },
    }
}

impl SimState {
    /// The world at tick 0: B moving and fully localized on A's beacon. For a
    /// power cascade the charger has already faulted; interference and brownout
    /// strike later, at `fault_onset`.
    pub fn initial(fault: Fault, c_ready: bool, fault_onset: u32) -> (s: SimState)
        ensures
            s == (SimState {
                tick: 0,
                decision_tick: 0,
                fault,
                fault_onset,
                charger_faulted: fault == Fault::PowerCascade,
                failover_active: false,
                a_online: true,
                a_restart_until: None,
                beacon_source: RobotId::A,
                beacon_up: true,
                beacon_jammed: false,
                tx_degraded: false,
                c_ready,
                b_in_motion: true,
                b_halted: false,
                dangerous_seen: false,
                recovered_tick: None,
            }),
    {
        SimState {
            tick: 0,
            decision_tick: 0,
            fault,
            fault_onset,
            charger_faulted: match fault {
                Fault::PowerCascade => true,
                _ => false,
            },
            failover_active: false,
            a_online: true,
            a_restart_until: None,
            beacon_source: RobotId::A,
            beacon_up: true,
            beacon_jammed: false,
            tx_degraded: false,
            c_ready,
            b_in_motion: true,
            b_halted: false,
            dangerous_seen: false,
            recovered_tick: None,
        }
    }

    /// The power half of a tick (see `power_step`).
    pub fn advance_power(&mut self, above_offline: bool, above_online: bool)
        requires
            old(self).tick < u32::MAX,
        ensures
            *final(self) == power_step(*old(self), above_offline, above_online),
            final(self).tick == old(self).tick + 1,
            final(self).beacon_up == ((final(self).beacon_source == RobotId::A && final(self).a_online
                && !final(self).beacon_jammed && !final(self).tx_degraded) || (
            final(self).beacon_source == RobotId::C && final(self).c_ready)),
            final(self).a_online == (if final(self).a_restart_until is Some {
                false
            } else if old(self).a_online {
                above_offline
            } else {
                above_online
            }),
    {
        let tick: u32 = self.tick + 1;
        let strikes = tick == self.fault_onset;
        let jammed = self.beacon_jammed || (strikes && matches!(self.fault, Fault::Interference));
        let degraded = self.tx_degraded || (strikes && matches!(self.fault, Fault::Brownout));
        let restart = match self.a_restart_until {
            Some(until) => if tick >= until { None } else { Some(until) },
            None => None,
        };
        let online = if restart.is_some() {
            false
        } else if self.a_online {
            above_offline
        } else {
            above_online
        };
        let beacon_up = match self.beacon_source {
            RobotId::A => online && !jammed && !degraded,
            RobotId::C => self.c_ready,
            RobotId::B => false,
        };
        self.tick = tick;
        self.beacon_jammed = jammed;
        self.tx_degraded = degraded;
        self.a_restart_until = restart;
        self.a_online = online;
        self.beacon_up = beacon_up;
    }

    /// The motion half of a tick (see `motion_step`).
    pub fn settle_motion(&mut self, below_safe: bool, well_localized: bool)
        ensures
            *final(self) == motion_step(*old(self), below_safe, well_localized),
            final(self).b_halted == (old(self).b_halted && !(old(self).beacon_up && well_localized)),
            final(self).dangerous_seen == (old(self).dangerous_seen || (old(self).b_in_motion
                && !final(self).b_halted && below_safe)),
            old(self).recovered_tick is None ==> (final(self).recovered_tick is Some <==> (
            old(self).b_in_motion && !final(self).b_halted && old(self).beacon_up
                && well_localized)),
            old(self).recovered_tick is None && final(self).recovered_tick is Some
                ==> final(self).recovered_tick == Some(old(self).tick),
            old(self).recovered_tick is Some ==> final(self).recovered_tick == old(self).recovered_tick,
    {
        // A parked B resumes once the beacon is back and it has re-localized.
        if self.b_halted && self.beacon_up && well_localized {
            self.b_halted = false;
        }
        // Danger: moving without enough localization is a collision risk.
        if self.b_in_motion && !self.b_halted && below_safe {
            self.dangerous_seen = true;
        }
        // Recovery: B back on task and well localized.
        if self.recovered_tick.is_none() && self.b_in_motion && !self.b_halted && self.beacon_up
            && well_localized {
            self.recovered_tick = Some(self.tick);
        }
    }

    /// Apply a recovery action at the decision point.
    pub fn apply_action(&mut self, a: Action, restart_downtime: u32)
        requires
            a == Action::RestartRobotA ==> old(self).tick + restart_downtime <= u32::MAX,
        ensures
            *final(self) == action_effect(*old(self), a, restart_downtime),
            a == Action::FailoverCharger ==> final(self).failover_active && !final(self).tx_degraded,
            a == Action::RestartRobotA ==> final(self).a_restart_until == Some(
                (old(self).tick + restart_downtime) as u32,
            ) && !final(self).a_online,
            a == Action::PromoteCToBeacon ==> final(self).beacon_source == RobotId::C,
            a == Action::HaltB ==> final(self).b_halted,
            a == Action::SwitchBeaconChannel ==> !final(self).beacon_jammed,
            a == Action::DoNothing ==> *final(self) == *old(self),
    {
        match a {
            Action::DoNothing => {},
            Action::FailoverCharger => {
                self.failover_active = true;
                self.tx_degraded = false;
            },
            Action::RestartRobotA => {
                self.a_restart_until = Some(self.tick + restart_downtime);
                self.a_online = false;
            },
            Action::PromoteCToBeacon => self.beacon_source = RobotId::C,
            Action::HaltB => self.b_halted = true,
            Action::SwitchBeaconChannel => self.beacon_jammed = false,
        }
    }

    /// The scored outcome of a finished rollout; `well_localized` says whether
    /// B's final localization is at or above the fully-recovered level.
    pub fn outcome(&self, well_localized: bool) -> (o: SimOutcome)
        ensures
            o == outcome_of(*self, well_localized),
            o.safe == !self.dangerous_seen,
            o.successful == (self.b_in_motion && !self.b_halted && self.beacon_up && well_localized),
            o.mttr is Some <==> self.recovered_tick is Some,
            self.recovered_tick is Some && self.recovered_tick->0 >= self.decision_tick ==> o.mttr
                == Some((self.recovered_tick->0 - self.decision_tick) as u32),
    {
        SimOutcome {
            safe: !self.dangerous_seen,
            successful: self.b_in_motion && !self.b_halted && self.beacon_up && well_localized,
            mttr: match self.recovered_tick {
                Some(t) => Some(t.saturating_sub(self.decision_tick)),
                None => None,
            },
        }
    }
}

/// Whether applying `a` in state `s` would change anything. The controller
/// spends its action budget only on actions that do.
pub fn action_changes_state(a: Action, s: &SimState) -> (r: bool)
    ensures
        r == changes_state(a, *s),
{
    match a {
        Action::DoNothing => false,
        Action::FailoverCharger => !s.failover_active || s.tx_degraded,
        Action::RestartRobotA => true,
        Action::PromoteCToBeacon => match s.beacon_source {
            RobotId::C => false,
            _ => true,
        },
        Action::HaltB => !s.b_halted,
        Action::SwitchBeaconChannel => s.beacon_jammed,
    }
}

/// Score of a single outcome. Danger is penalized hard so that "safe but idle"
/// beats "effective but reckless".
pub open spec fn score_of(o: SimOutcome) -> int {
    (if o.safe { 1int } else { -2int }) + (if o.successful { 1int } else { 0int })
}

/// Score a single outcome: +1 if safe, -2 if not, and +1 more if B recovered.
pub fn scenario_score(o: &SimOutcome) -> (r: i32)
    ensures
        r == score_of(*o),
        r == (if o.safe { 1int } else { -2int }) + (if o.successful { 1int } else { 0int }),
{
    (if o.safe { 1i32 } else { -2i32 }) + (if o.successful { 1i32 } else { 0i32 })
}

/// Any safe outcome, recovered or not, outscores any unsafe one.
pub proof fn lemma_safety_dominates_score(safe: SimOutcome, unsafe_: SimOutcome)
    requires
        safe.safe,
        !unsafe_.safe,
    ensures
        score_of(safe) > score_of(unsafe_),
{
}

/// Root-cause diagnosis from the (possibly believed) state.
pub open spec fn diagnosis(s: SimState) -> Symptom {
    if s.beacon_up {
        if s.charger_faulted && !s.failover_active {
            Symptom::BatteryDraining
        } else {
            Symptom::Nominal
        }
    } else if !s.a_online {
        Symptom::BeaconLostPower
    } else if s.beacon_jammed {
        Symptom::BeaconLostInterference
    } else if s.tx_degraded {
        Symptom::BeaconLostBrownout
    } else {
        Symptom::BeaconLostBDrifting
    }
}

/// The coarse symptom a runtime without diagnosis sees.
pub open spec fn coarse_diagnosis(s: SimState) -> Symptom {
    if s.beacon_up {
        Symptom::Nominal
    } else {
        Symptom::BeaconLostBDrifting
    }
}

/// Infer the root cause behind a lost beacon: A offline means a power problem;
/// A online with a jammed channel means interference; A online with a degraded
/// transmitter means a brownout. With the beacon up, the only thing worth
/// reporting is a charger that is draining A.
pub fn diagnose(s: &SimState) -> (sym: Symptom)
    ensures
        sym == diagnosis(*s),
        s.beacon_up ==> (sym == Symptom::BatteryDraining <==> (s.charger_faulted
            && !s.failover_active)),
        s.beacon_up && !(s.charger_faulted && !s.failover_active) ==> sym == Symptom::Nominal,
        !s.beacon_up && !s.a_online ==> sym == Symptom::BeaconLostPower,
        !s.beacon_up && s.a_online && s.beacon_jammed ==> sym == Symptom::BeaconLostInterference,
        !s.beacon_up && s.a_online && !s.beacon_jammed && s.tx_degraded ==> sym
            == Symptom::BeaconLostBrownout,
        !s.beacon_up && s.a_online && !s.beacon_jammed && !s.tx_degraded ==> sym
            == Symptom::BeaconLostBDrifting,
{
    if s.beacon_up {
        if s.charger_faulted && !s.failover_active {
            Symptom::BatteryDraining
        } else {
            Symptom::Nominal
        }
    } else if !s.a_online {
        Symptom::BeaconLostPower
    } else if s.beacon_jammed {
        Symptom::BeaconLostInterference
    } else if s.tx_degraded {
        Symptom::BeaconLostBrownout
    } else {
        Symptom::BeaconLostBDrifting
    }
}

/// The no-diagnosis baseline: only "beacon down" or not.
pub fn diagnose_coarse(s: &SimState) -> (sym: Symptom)
    ensures
        sym == coarse_diagnosis(*s),
        sym == (if s.beacon_up { Symptom::Nominal } else { Symptom::BeaconLostBDrifting }),
{
    if s.beacon_up {
        Symptom::Nominal
    } else {
        Symptom::BeaconLostBDrifting
    }
}

/// Diagnosis refines the coarse symptom: it reports a lost beacon exactly when
/// the coarse symptom does, and only splits it by root cause.
pub proof fn lemma_diagnosis_refines_coarse(s: SimState)
    ensures
        (coarse_diagnosis(s) == Symptom::BeaconLostBDrifting) <==> (
        diagnosis(s) == Symptom::BeaconLostBDrifting || diagnosis(s) == Symptom::BeaconLostPower
            || diagnosis(s) == Symptom::BeaconLostInterference || diagnosis(s)
            == Symptom::BeaconLostBrownout),
{
}

/// A jam and a brownout differ only in which of the two flags is set: with A
/// online and the beacon down, exchanging them exchanges the diagnosis.
pub proof fn lemma_jam_and_brownout_differ_only_in_the_signal(s: SimState)
    requires
        !s.beacon_up,
        s.a_online,
        s.beacon_jammed != s.tx_degraded,
    ensures
        diagnosis(s) == Symptom::BeaconLostInterference <==> diagnosis(
            SimState { beacon_jammed: s.tx_degraded, tx_degraded: s.beacon_jammed, ..s },
        ) == Symptom::BeaconLostBrownout,
        diagnosis(s) == Symptom::BeaconLostInterference || diagnosis(s)
            == Symptom::BeaconLostBrownout,
{
}

/// Closed-loop controller settings: re-decide at most every `interval` ticks,
/// and apply at most `max_actions` actions per incident.
#[derive(Clone, Copy, PartialEq, Eq, Structural, Debug)]
pub struct ControlConfig {
    pub interval: u32,
    pub max_actions: u32,
}

impl ControlConfig {
    /// The controller used by the experiment and the replay tool.
    pub fn default_loop() -> (c: ControlConfig)
        ensures
            c.interval == 2,
            c.max_actions == 3,
    {
        ControlConfig { interval: 2, max_actions: 3 }
    }
}

/// The closed-loop controller's bookkeeping for one incident
/// (act, verify, re-decide).
#[derive(Clone, Copy, PartialEq, Eq, Structural, Debug)]
pub struct Controller {
    /// State-changing actions applied so far.
    pub actions_taken: u32,
    /// The tick of the last decision, if any.
    pub last_decision: Option<u32>,
    /// Whether the beacon has been lost yet (the incident's decision point).
    pub incident_open: bool,
}

/// A decision is due while the beacon is down, the action budget is not spent,
/// and `interval` ticks have passed since the last decision.
pub open spec fn decision_due(c: Controller, s: SimState, ctl: ControlConfig) -> bool {
    &&& !s.beacon_up
    &&& c.actions_taken < ctl.max_actions
    &&& match c.last_decision {
        None => true,
        Some(t) => s.tick >= t + ctl.interval,
    }
}

impl Controller {
    pub fn new() -> (c: Controller)
        ensures
            c == (Controller { actions_taken: 0, last_decision: None, incident_open: false }),
    {
        Controller { actions_taken: 0, last_decision: None, incident_open: false }
    }

    /// Called at the top of every tick. The first time the beacon is seen down
    /// the incident opens: the decision point is stamped and recovery is
    /// measured from there on. Returns whether a decision is due now.
    pub fn begin_tick(&mut self, s: &mut SimState, ctl: &ControlConfig) -> (due: bool)
        ensures
            !old(s).beacon_up && !old(self).incident_open ==> *final(s) == (SimState {
                decision_tick: old(s).tick,
                recovered_tick: None,
                ..*old(s)
            }) && *final(self) == (Controller { incident_open: true, ..*old(self) }),
            !(!old(s).beacon_up && !old(self).incident_open) ==> *final(s) == *old(s)
                && *final(self) == *old(self),
            due == decision_due(*old(self), *old(s), *ctl),
            due == (!old(s).beacon_up && old(self).actions_taken < ctl.max_actions && (
            old(self).last_decision is None || old(s).tick >= old(self).last_decision->0
                + ctl.interval)),
    {
        if !s.beacon_up && !self.incident_open {
            self.incident_open = true;
            s.decision_tick = s.tick;
            s.recovered_tick = None;
        }
        let spaced = match self.last_decision {
            None => true,
            Some(t) => s.tick >= t && s.tick - t >= ctl.interval,
        };
        !s.beacon_up && self.actions_taken < ctl.max_actions && spaced
    }

    /// Record the decider's choice for a due decision. The action is applied,
    /// and charged to the budget, only if it changes the state.
    pub fn commit(&mut self, s: &mut SimState, a: Action, restart_downtime: u32, ctl: &ControlConfig) -> (applied: bool)
        requires
            decision_due(*old(self), *old(s), *ctl),
            a == Action::RestartRobotA ==> old(s).tick + restart_downtime <= u32::MAX,
        ensures
            applied == changes_state(a, *old(s)),
            *final(s) == if applied { action_effect(*old(s), a, restart_downtime) } else { *old(s) },
            final(self).actions_taken == old(self).actions_taken + if applied { 1int } else { 0int },
            final(self).actions_taken <= ctl.max_actions,
            final(self).last_decision == Some(old(s).tick),
            final(self).incident_open == old(self).incident_open,
    {
        let applied = action_changes_state(a, s);
        if applied {
            s.apply_action(a, restart_downtime);
            self.actions_taken = self.actions_taken + 1;
        }
        self.last_decision = Some(s.tick);
        applied
    }
}

/// A parked B is never a collision risk: whenever B is still halted after the
/// motion half of a tick, the danger latch is exactly what it was before. The
/// power half never touches B at all.
pub proof fn lemma_halted_b_is_never_dangerous(
    s: SimState,
    below_safe: bool,
    well_localized: bool,
    above_offline: bool,
    above_online: bool,
)
    ensures
        motion_step(s, below_safe, well_localized).b_halted ==> motion_step(
            s,
            below_safe,
            well_localized,
        ).dangerous_seen == s.dangerous_seen,
        power_step(s, above_offline, above_online).b_halted == s.b_halted,
        power_step(s, above_offline, above_online).dangerous_seen == s.dangerous_seen,
{
}

/// Danger is a latch and recovery is stamped once: no tick and no action ever
/// clears an observed danger or moves a recorded recovery time.
pub proof fn lemma_latches_are_monotone(
    s: SimState,
    a: Action,
    restart_downtime: u32,
    below_safe: bool,
    well_localized: bool,
    above_offline: bool,
    above_online: bool,
)
    ensures
        s.dangerous_seen ==> power_step(s, above_offline, above_online).dangerous_seen,
        s.dangerous_seen ==> motion_step(s, below_safe, well_localized).dangerous_seen,
        s.dangerous_seen ==> action_effect(s, a, restart_downtime).dangerous_seen,
        s.recovered_tick is Some ==> power_step(s, above_offline, above_online).recovered_tick
            == s.recovered_tick,
        s.recovered_tick is Some ==> motion_step(s, below_safe, well_localized).recovered_tick
            == s.recovered_tick,
        s.recovered_tick is Some ==> action_effect(s, a, restart_downtime).recovered_tick
            == s.recovered_tick,
        s.tick < u32::MAX ==> power_step(s, above_offline, above_online).tick == s.tick + 1,
        motion_step(s, below_safe, well_localized).tick == s.tick,
{
}

/// Safe-mode auto-resume: a parked B resumes exactly when its beacon is back
/// and it has re-localized, and in that tick it is counted as recovered unless
/// a recovery was already stamped.
pub proof fn lemma_parked_b_resumes_when_safe(s: SimState, below_safe: bool, well_localized: bool)
    requires
        s.b_halted,
        s.b_in_motion,
    ensures
        !motion_step(s, below_safe, well_localized).b_halted <==> (s.beacon_up && well_localized),
        s.beacon_up && well_localized && s.recovered_tick is None ==> motion_step(
            s,
            below_safe,
            well_localized,
        ).recovered_tick == Some(s.tick),
{
}

/// A restarting A stays offline, and so does its beacon, until the tick its
/// restart window ends; an offline A only comes back at the (higher) online
/// battery level, whatever the offline level says.
pub proof fn lemma_restart_and_hysteresis_hold_a_offline(
    s: SimState,
    until: u32,
    above_offline: bool,
    above_online: bool,
)
    requires
        s.tick < u32::MAX,
    ensures
        s.a_restart_until == Some(until) && s.tick + 1 < until ==> !power_step(
            s,
            above_offline,
            above_online,
        ).a_online && power_step(s, above_offline, above_online).a_restart_until == Some(until),
        s.a_restart_until is None && !s.a_online ==> power_step(
            s,
            above_offline,
            above_online,
        ).a_online == above_online,
        s.a_restart_until is None && s.a_online ==> power_step(
            s,
            above_offline,
            above_online,
        ).a_online == above_offline,
        s.beacon_source == RobotId::A && !power_step(s, above_offline, above_online).a_online
            ==> !power_step(s, above_offline, above_online).beacon_up,
{
}

/// A fault does not heal itself: while A is the beacon source and its channel
/// is jammed or its transmitter degraded, the beacon stays down.
pub proof fn lemma_faults_persist_until_fixed(s: SimState, above_offline: bool, above_online: bool)
    requires
        s.beacon_source == RobotId::A,
        s.beacon_jammed || s.tx_degraded,
    ensures
        !power_step(s, above_offline, above_online).beacon_up,
{
}

/// Each fix works for its fault and no other. With A healthy, on its own
/// beacon and not restarting, once the fault has struck: retuning the channel
/// brings the beacon back exactly when the transmitter is not degraded, and
/// failing the charger over (power-cycling the radio) brings it back exactly
/// when the channel is not jammed.
pub proof fn lemma_each_fix_works_for_its_fault_and_no_other(s: SimState, restart_downtime: u32)
    requires
        s.beacon_source == RobotId::A,
        s.a_restart_until is None,
        s.tick >= s.fault_onset,
        s.tick < u32::MAX,
    ensures
        power_step(action_effect(s, Action::SwitchBeaconChannel, restart_downtime), true, true).beacon_up
            == !s.tx_degraded,
        power_step(action_effect(s, Action::FailoverCharger, restart_downtime), true, true).beacon_up
            == !s.beacon_jammed,
        power_step(action_effect(s, Action::HaltB, restart_downtime), true, true).beacon_up == (
        !s.beacon_jammed && !s.tx_degraded),
{
}

/// An action the controller would not count changes nothing; every other
/// action except a restart (which always resets A's timer) does change the state.
pub proof fn lemma_noop_actions_change_nothing(s: SimState, a: Action, restart_downtime: u32)
    ensures
        !changes_state(a, s) ==> action_effect(s, a, restart_downtime) == s,
        changes_state(a, s) && a != Action::RestartRobotA ==> action_effect(s, a, restart_downtime)
            != s,
{
}

/// The offset mixed into every per-scenario seed.
pub const SEED_OFFSET: u64 = 0xD1B5_4A32_D192_ED03;

/// The seed of scenario `idx` in a family with base seed `base`.
pub open spec fn seed_of(base: u64, idx: u64) -> u64 {
    base ^ add64(mul64(idx, GAMMA), SEED_OFFSET)
}

/// Derive an independent, reproducible RNG seed per scenario index.
pub fn seed_for(base: u64, idx: usize) -> (s: u64)
    ensures
        s == seed_of(base, idx as u64),
{
    base ^ (idx as u64).wrapping_mul(GAMMA).wrapping_add(SEED_OFFSET)
}

/// Multiplying by `GAMMA` is undone by multiplying by its inverse modulo 2^64.
proof fn lemma_gamma_invertible(x: u64)
    ensures
        mul64(mul64(x, GAMMA), 0xF1DE_83E1_9937_733Du64) == x,
{
    let m: int = 0x1_0000_0000_0000_0000;
    let g: int = GAMMA as int;
    let ginv: int = 0xF1DE_83E1_9937_733D;
    let q: int = 10771413168148108919;
    assert(g * ginv == 1 + q * m);
    vstd::arithmetic::div_mod::lemma_mul_mod_noop_left(x as int * g, ginv, m);
    vstd::arithmetic::mul::lemma_mul_is_associative(x as int, g, ginv);
    assert(x as int * (g * ginv) == m * (x as int * q) + x as int) by (nonlinear_arith)
        requires
            g * ginv == 1 + q * m,
    ;
    vstd::arithmetic::div_mod::lemma_mod_multiples_vanish(x as int * q, x as int, m);
    vstd::arithmetic::div_mod::lemma_small_mod(x as nat, m as nat);
}

/// Distinct scenario indices get distinct seeds under the same base, so every
/// scenario in a family is a different incident.
pub proof fn lemma_seed_for_is_injective(base: u64, i: u64, j: u64)
    requires
        i != j,
    ensures
        seed_of(base, i) != seed_of(base, j),
{
    lemma_gamma_invertible(i);
    lemma_gamma_invertible(j);
    let a = add64(mul64(i, GAMMA), SEED_OFFSET);
    let b = add64(mul64(j, GAMMA), SEED_OFFSET);
    assert(mul64(i, GAMMA) != mul64(j, GAMMA));
    assert(a != b);
    assert(base ^ a != base ^ b) by (bit_vector)
        requires
            a != b,
    ;
}

/// Safety and success are independent columns of an outcome: an outcome is
/// safe exactly when no danger was ever seen, and successful exactly when B
/// ends on task (moving, not parked, with a beacon, well-localized), whether or
/// not it went through a danger window on the way. The time-to-recover exists
/// exactly when a recovery was stamped and counts the ticks from the decision
/// point to it.
pub proof fn lemma_outcome_columns_are_independent(s: SimState, well_localized: bool)
    ensures
        outcome_of(s, well_localized).safe == !s.dangerous_seen,
        outcome_of(s, well_localized).successful == (s.b_in_motion && !s.b_halted && s.beacon_up
            && well_localized),
        outcome_of(s, well_localized).mttr is Some <==> s.recovered_tick is Some,
        s.recovered_tick is Some && s.recovered_tick->0 >= s.decision_tick ==> outcome_of(
            s,
            well_localized,
        ).mttr == Some((s.recovered_tick->0 - s.decision_tick) as u32),
        // a recovered run through a danger window still counts as recovered
        s.dangerous_seen && s.b_in_motion && !s.b_halted && s.beacon_up && well_localized ==> (
        !outcome_of(s, well_localized).safe && outcome_of(s, well_localized).successful
            && score_of(outcome_of(s, well_localized)) == -1),
{
}

/// The motion half of a tick, stated by its effects. B stays parked exactly
/// when it was parked and is not yet both beaconed and well-localized; the
/// danger latch is set exactly when it was already set or B, moving and not
/// parked, is below the safe minimum; and an unstamped recovery is stamped
/// with the current tick exactly when B ends the tick on task, regardless of
/// any earlier danger.
pub proof fn lemma_motion_step_effects(s: SimState, below_safe: bool, well_localized: bool)
    ensures
        motion_step(s, below_safe, well_localized).b_halted == (s.b_halted && !(s.beacon_up
            && well_localized)),
        motion_step(s, below_safe, well_localized).dangerous_seen == (s.dangerous_seen || (
        s.b_in_motion && !motion_step(s, below_safe, well_localized).b_halted && below_safe)),
        s.recovered_tick is None ==> (motion_step(s, below_safe, well_localized).recovered_tick
            is Some <==> (s.b_in_motion && !motion_step(s, below_safe, well_localized).b_halted
            && s.beacon_up && well_localized)),
        s.recovered_tick is None && s.b_in_motion && !motion_step(
            s,
            below_safe,
            well_localized,
        ).b_halted && s.beacon_up && well_localized ==> motion_step(
            s,
            below_safe,
            well_localized,
        ).recovered_tick == Some(s.tick),
        s.recovered_tick is Some ==> motion_step(s, below_safe, well_localized).recovered_tick
            == s.recovered_tick,
        motion_step(s, below_safe, well_localized).beacon_up == s.beacon_up,
        motion_step(s, below_safe, well_localized).b_in_motion == s.b_in_motion,
        motion_step(s, below_safe, well_localized).tick == s.tick,
{
}

/// Diagnosis, stated by cause. With the beacon up, the only report is a charger
/// draining A. With the beacon down: A offline is a power problem, whatever
/// the charger is doing (a failover in progress included); A online on a jammed
/// channel is interference; A online on a clear channel with a degraded
/// transmitter is a brownout; anything else is the unexplained coarse symptom.
pub proof fn lemma_diagnosis_by_cause(s: SimState)
    ensures
        s.beacon_up ==> (diagnosis(s) == Symptom::BatteryDraining <==> (s.charger_faulted
            && !s.failover_active)),
        s.beacon_up && !(s.charger_faulted && !s.failover_active) ==> diagnosis(s)
            == Symptom::Nominal,
        !s.beacon_up && !s.a_online ==> diagnosis(s) == Symptom::BeaconLostPower,
        !s.beacon_up && s.a_online && s.beacon_jammed ==> diagnosis(s)
            == Symptom::BeaconLostInterference,
        !s.beacon_up && s.a_online && !s.beacon_jammed && s.tx_degraded ==> diagnosis(s)
            == Symptom::BeaconLostBrownout,
        !s.beacon_up && s.a_online && !s.beacon_jammed && !s.tx_degraded ==> diagnosis(s)
            == Symptom::BeaconLostBDrifting,
        coarse_diagnosis(s) == (if s.beacon_up {
            Symptom::Nominal
        } else {
            Symptom::BeaconLostBDrifting
        }),
{
}

/// The power half of a tick, stated by its effects: time moves on by one; a
/// jam or degradation appears only when its own fault strikes at this tick
/// and otherwise persists; a restart window ends at its deadline; A is held
/// offline while restarting and otherwise follows the hysteresis thresholds;
/// the beacon is up exactly when its source is transmitting; nothing about B
/// changes.
pub proof fn lemma_power_step_effects(s: SimState, above_offline: bool, above_online: bool)
    requires
        s.tick < u32::MAX,
    ensures
        power_step(s, above_offline, above_online).tick == s.tick + 1,
        power_step(s, above_offline, above_online).beacon_jammed == (s.beacon_jammed || (s.tick
            + 1 == s.fault_onset && s.fault == Fault::Interference)),
        power_step(s, above_offline, above_online).tx_degraded == (s.tx_degraded || (s.tick + 1
            == s.fault_onset && s.fault == Fault::Brownout)),
        s.a_restart_until is None ==> power_step(s, above_offline, above_online).a_restart_until
            is None,
        s.a_restart_until is Some ==> (power_step(s, above_offline, above_online).a_restart_until
            is None <==> s.tick + 1 >= s.a_restart_until->0),
        power_step(s, above_offline, above_online).a_restart_until is Some ==> !power_step(
            s,
            above_offline,
            above_online,
        ).a_online,
        power_step(s, above_offline, above_online).a_restart_until is None ==> power_step(
            s,
            above_offline,
            above_online,
        ).a_online == (if s.a_online {
            above_offline
        } else {
            above_online
        }),
        power_step(s, above_offline, above_online).beacon_up == ((s.beacon_source == RobotId::A
            && power_step(s, above_offline, above_online).a_online && !power_step(
            s,
            above_offline,
            above_online,
        ).beacon_jammed && !power_step(s, above_offline, above_online).tx_degraded) || (
        s.beacon_source == RobotId::C && s.c_ready)),
        power_step(s, above_offline, above_online).beacon_source == s.beacon_source,
        power_step(s, above_offline, above_online).b_halted == s.b_halted,
        power_step(s, above_offline, above_online).dangerous_seen == s.dangerous_seen,
        power_step(s, above_offline, above_online).recovered_tick == s.recovered_tick,
        power_step(s, above_offline, above_online).failover_active == s.failover_active,
        power_step(s, above_offline, above_online).charger_faulted == s.charger_faulted,
        power_step(s, above_offline, above_online).decision_tick == s.decision_tick,
{
}

/// What each recovery action does, and nothing else: failover switches the
/// charger and power-cycles A's radio; a restart takes A offline until
/// `restart_downtime` ticks from now; promotion makes C the beacon source;
/// halting parks B; retuning clears the jam; doing nothing changes nothing. No
/// action touches the clock, the danger latch or the recovery stamp, and
/// restarting is the only one that ever counts as a change regardless of state.
pub proof fn lemma_action_effects(s: SimState, a: Action, restart_downtime: u32)
    requires
        s.tick + restart_downtime <= u32::MAX,
    ensures
        a == Action::FailoverCharger ==> action_effect(s, a, restart_downtime).failover_active
            && !action_effect(s, a, restart_downtime).tx_degraded && action_effect(
            s,
            a,
            restart_downtime,
        ).beacon_jammed == s.beacon_jammed && action_effect(s, a, restart_downtime).a_online
            == s.a_online,
        a == Action::RestartRobotA ==> action_effect(s, a, restart_downtime).a_restart_until
            == Some((s.tick + restart_downtime) as u32) && !action_effect(
            s,
            a,
            restart_downtime,
        ).a_online,
        a == Action::PromoteCToBeacon ==> action_effect(s, a, restart_downtime).beacon_source
            == RobotId::C && action_effect(s, a, restart_downtime).a_online == s.a_online,
        a == Action::HaltB ==> action_effect(s, a, restart_downtime).b_halted && action_effect(
            s,
            a,
            restart_downtime,
        ).beacon_source == s.beacon_source,
        a == Action::SwitchBeaconChannel ==> !action_effect(s, a, restart_downtime).beacon_jammed
            && action_effect(s, a, restart_downtime).tx_degraded == s.tx_degraded
            && action_effect(s, a, restart_downtime).failover_active == s.failover_active,
        a == Action::DoNothing ==> action_effect(s, a, restart_downtime) == s,
        a != Action::HaltB ==> action_effect(s, a, restart_downtime).b_halted == s.b_halted,
        a != Action::PromoteCToBeacon ==> action_effect(s, a, restart_downtime).beacon_source
            == s.beacon_source,
        action_effect(s, a, restart_downtime).tick == s.tick,
        action_effect(s, a, restart_downtime).dangerous_seen == s.dangerous_seen,
        action_effect(s, a, restart_downtime).recovered_tick == s.recovered_tick,
        changes_state(Action::RestartRobotA, s),
        a != Action::RestartRobotA ==> (changes_state(a, s) <==> action_effect(
            s,
            a,
            restart_downtime,
        ) != s),
{
}

/// When the controller may decide: only while the beacon is down, only while
/// the action budget lasts, and only once `interval` ticks have passed since
/// the previous decision.
pub proof fn lemma_decision_due_when(c: Controller, s: SimState, ctl: ControlConfig)
    ensures
        decision_due(c, s, ctl) <==> (!s.beacon_up && c.actions_taken < ctl.max_actions && (
        c.last_decision is None || s.tick >= c.last_decision->0 + ctl.interval)),
{
}

} // verus!

//! The decision layer's verified core: the policy gate and the strategy arms.
//!
//! - Reactive: a fixed runbook rule. No memory, no simulation.
//! - Memory-only: the allowed action with the best historical average.
//! - Full Aegis: simulates every allowed action against the twin and picks
//!   the safest viable one.
//! - Full Aegis+: Full Aegis that hedges across both readings of an ambiguous
//!   jam-or-brownout diagnosis.
use vstd::prelude::*;

use crate::model::{all_actions, lemma_all_actions_enumerate_each_once, Action};
use crate::sim::SimState;

verus! {

/// The policy gate: what the runtime is allowed to do.
pub struct Policy;

/// Restarting the beacon anchor while B is actively moving flaps the beacon and
/// endangers B, so it is prohibited unless B is already halted. Everything else
/// is allowed.
pub open spec fn permitted(a: Action, s: SimState) -> bool {
    match a {
        Action::RestartRobotA => !(s.b_in_motion && !s.b_halted),
        _ => true,
    }
}

/// The permitted actions in state `s`, in the order of `all_actions()`.
pub open spec fn allowed_actions(s: SimState) -> Seq<Action> {
    all_actions().filter(|a: Action| permitted(a, s))
}

impl Policy {
    pub fn allows(&self, a: Action, s: &SimState) -> (ok: bool)
        ensures
            ok == permitted(a, *s),
    {
        match a {
            Action::RestartRobotA => {
                let b_actively_moving = s.b_in_motion && !s.b_halted;
                !b_actively_moving
            },
            _ => true,
        }
    }

    /// The actions the deciders may consider in state `s`: every action the
    /// gate allows, in the order of `Action::all()`.
    pub fn candidates(&self, s: &SimState) -> (v: Vec<Action>)
        ensures
            v@ == allowed_actions(*s),
    {
        let all = Action::all();
        let mut v: Vec<Action> = Vec::new();
        let mut i: usize = 0;
        while i < 6
            invariant
                i <= 6,
                all@ == all_actions(),
                v@ == all_actions().take(i as int).filter(|a: Action| permitted(a, *s)),
            decreases 6 - i,
        {
            let a = all[i];
            if self.allows(a, s) {
                v.push(a);
            }
            proof {
                assert(all_actions().take(i + 1).drop_last() =~= all_actions().take(i as int));
                reveal_with_fuel(Seq::<Action>::filter, 1);
            }
            i = i + 1;
        }
        assert(all_actions().take(6) =~= all_actions());
        v
    }
}

/// Halting B is always allowed, so a decider always has a safe fallback; and
/// the only action ever refused is a restart of A while B is moving.
pub proof fn lemma_gate_refuses_only_restart_while_moving(a: Action, s: SimState)
    ensures
        permitted(Action::HaltB, s),
        !permitted(a, s) <==> (a == Action::RestartRobotA && s.b_in_motion && !s.b_halted),
{
}

/// The deciders' candidate list holds exactly the permitted actions, and it
/// always holds the safe fallback, HaltB: a decider that picks from it (or
/// falls back to HaltB) never picks a forbidden action.
pub proof fn lemma_candidates_are_exactly_the_permitted(s: SimState)
    ensures
        forall|i: int|
            0 <= i < allowed_actions(s).len() ==> permitted(#[trigger] allowed_actions(s)[i], s),
        forall|a: Action| permitted(a, s) ==> #[trigger] allowed_actions(s).contains(a),
        allowed_actions(s).contains(Action::HaltB),
{
    let pred = |a: Action| permitted(a, s);
    assert forall|i: int| 0 <= i < allowed_actions(s).len() implies permitted(
        #[trigger] allowed_actions(s)[i],
        s,
    ) by {
        all_actions().lemma_filter_pred(pred, i);
    }
    assert forall|a: Action| permitted(a, s) implies #[trigger] allowed_actions(s).contains(a) by {
        lemma_all_actions_enumerate_each_once(a);
        let i = choose|i: int| 0 <= i < all_actions().len() && all_actions()[i] == a;
        all_actions().lemma_filter_contains(pred, i);
    }
    assert(permitted(Action::HaltB, s));
}

pub enum Arm {
    Reactive,
    MemoryOnly,
    FullAegis,
    /// Full Aegis that is confidence-aware: under an uncertain diagnosis it
    /// weighs each action across both fault hypotheses and hedges, rather than
    /// committing to the single most-likely guess.
    FullAegisRobust,
}

impl Arm {
    pub open spec fn spec_name(&self) -> Seq<char> {
        match self {
            Arm::Reactive => "Reactive"@,
            Arm::MemoryOnly => "Memory-only"@,
            Arm::FullAegis => "Full Aegis"@,
            Arm::FullAegisRobust => "Full Aegis+"@,
        }
    }

    pub fn name(&self) -> (s: &'static str)
        ensures
            s@ == self.spec_name(),
    {
        match self {
            Arm::Reactive => "Reactive",
            Arm::MemoryOnly => "Memory-only",
            Arm::FullAegis => "Full Aegis",
            Arm::FullAegisRobust => "Full Aegis+",
        }
    }
}

} // verus!

//! The discrete part of the forensic timeline: how B's condition is summed up
//! on each line of a replay.
use vstd::prelude::*;

verus! {

/// B's one-word status on a timeline line, by priority: danger first, then
/// safe-mode, then recovered, then drifting without a beacon, else moving.
pub open spec fn spec_b_state(dangerous_now: bool, b_halted: bool, recovered: bool, beacon_up: bool) -> Seq<char> {
    if dangerous_now {
        "DANGER"@
    } else if b_halted {
        "halted"@
    } else if recovered {
        "ok"@
    } else if !beacon_up {
        "drift"@
    } else {
        "moving"@
    }
}

/// B's status word for one frame of a replay.
pub fn b_state(dangerous_now: bool, b_halted: bool, recovered: bool, beacon_up: bool) -> (s: &'static str)
    ensures
        s@ == spec_b_state(dangerous_now, b_halted, recovered, beacon_up),
        dangerous_now ==> s@ == "DANGER"@,
        !dangerous_now && b_halted ==> s@ == "halted"@,
        !dangerous_now && !b_halted && recovered ==> s@ == "ok"@,
        !dangerous_now && !b_halted && !recovered && !beacon_up ==> s@ == "drift"@,
        !dangerous_now && !b_halted && !recovered && beacon_up ==> s@ == "moving"@,
{
    if dangerous_now {
        "DANGER"
    } else if b_halted {
        "halted"
    } else if recovered {
        "ok"
    } else if !beacon_up {
        "drift"
    } else {
        "moving"
    }
}

/// B's status word tells the frames apart: it reads "DANGER" exactly when B is
/// in danger, whatever the beacon, parking or recovery say; "halted" exactly
/// when B is parked and not in danger; "ok" exactly when B is recovered, moving
/// freely and not in danger; and "drift" or "moving" otherwise, by the beacon.
pub proof fn lemma_b_state_words(dangerous_now: bool, b_halted: bool, recovered: bool, beacon_up: bool)
    ensures
        spec_b_state(dangerous_now, b_halted, recovered, beacon_up) == "DANGER"@ <==> dangerous_now,
        spec_b_state(dangerous_now, b_halted, recovered, beacon_up) == "halted"@ <==> (!dangerous_now
            && b_halted),
        spec_b_state(dangerous_now, b_halted, recovered, beacon_up) == "ok"@ <==> (!dangerous_now
            && !b_halted && recovered),
        spec_b_state(dangerous_now, b_halted, recovered, beacon_up) == "drift"@ <==> (
        !dangerous_now && !b_halted && !recovered && !beacon_up),
        spec_b_state(dangerous_now, b_halted, recovered, beacon_up) == "moving"@ <==> (
        !dangerous_now && !b_halted && !recovered && beacon_up),
{
    reveal_strlit("DANGER");
    reveal_strlit("halted");
    reveal_strlit("ok");
    reveal_strlit("drift");
    reveal_strlit("moving");
    let w = spec_b_state(dangerous_now, b_halted, recovered, beacon_up);
    assert("DANGER"@ != "halted"@ && "DANGER"@ != "moving"@ && "halted"@ != "moving"@) by {
        assert("DANGER"@[0] != "halted"@[0]);
        assert("DANGER"@[0] != "moving"@[0]);
        assert("halted"@[0] != "moving"@[0]);
    }
    assert("drift"@ != "moving"@ && "drift"@ != "halted"@ && "drift"@ != "DANGER"@) by {
        assert("drift"@[0] != "moving"@[0]);
    }
    assert("ok"@.len() == 2);
}

} // verus!

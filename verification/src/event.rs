//! The append-only event log: the source of truth for an incident timeline.
//!
//! Every meaningful state transition becomes an immutable, timestamped event.
//! The log is generic over the kind of event it stores; it only ever appends.
use vstd::prelude::*;

use crate::sim::SimState;

verus! {

#[derive(Clone, Debug)]
pub struct Event<K> {
    pub tick: u32,
    pub kind: K,
}

#[derive(Clone, Debug)]
pub struct EventLog<K> {
    pub events: Vec<Event<K>>,
}

impl<K> EventLog<K> {
    /// The events recorded so far, oldest first.
    pub open spec fn entries(&self) -> Seq<Event<K>> {
        self.events@
    }

    pub fn new() -> (log: Self)
        ensures
            log.entries() == Seq::<Event<K>>::empty(),
    {
        EventLog { events: Vec::new() }
    }

    /// Append an event; nothing already recorded is touched.
    pub fn record(&mut self, tick: u32, kind: K)
        ensures
            final(self).entries() == old(self).entries().push(Event { tick, kind }),
    {
        self.events.push(Event { tick, kind });
    }

    pub fn len(&self) -> (n: usize)
        ensures
            n == self.entries().len(),
    {
        self.events.len()
    }

    pub fn is_empty(&self) -> (b: bool)
        ensures
            b == (self.entries().len() == 0),
    {
        self.events.len() == 0
    }
}

impl<K> Default for EventLog<K> {
    fn default() -> (log: Self)
        ensures
            log.entries() == Seq::<Event<K>>::empty(),
    {
        EventLog::new()
    }
}

/// The log is append-only: recording keeps every earlier event, at its index,
/// and puts the new one last.
pub proof fn lemma_record_only_appends<K>(before: Seq<Event<K>>, tick: u32, kind: K)
    ensures
        before.push(Event { tick, kind }).len() == before.len() + 1,
        before.push(Event { tick, kind }).subrange(0, before.len() as int) == before,
        before.push(Event { tick, kind })[before.len() as int] == (Event { tick, kind }),
{
    assert(before.push(Event { tick, kind }).subrange(0, before.len() as int) =~= before);
}

/// A state transition worth putting on an incident timeline.
#[derive(Clone, Copy, PartialEq, Eq, Structural, Debug)]
pub enum Transition {
    /// Robot A dropped offline.
    AOffline,
    /// Robot A came back online.
    AOnline,
    /// A's beacon channel became jammed (interference).
    BeaconJammed,
    /// A's transmitter degraded (brownout).
    TxDegraded,
    /// A's beacon channel was retuned clear.
    ChannelCleared,
    /// B lost its beacon.
    BeaconLost,
    /// B has a beacon again.
    BeaconRestored,
    /// B was parked in safe-mode.
    BHalted,
    /// B left safe-mode and resumed.
    BResumed,
    /// B started moving without enough localization.
    DangerOnset,
    /// B is back on task and well-localized.
    Recovered,
}

impl Transition {
    pub open spec fn spec_note(self) -> Seq<char> {
        match self {
            Transition::AOffline => "robot A dropped offline"@,
            Transition::AOnline => "robot A back online"@,
            Transition::BeaconJammed => "beacon jammed (interference)"@,
            Transition::TxDegraded => "transmitter degraded (brownout)"@,
            Transition::ChannelCleared => "channel cleared"@,
            Transition::BeaconLost => "beacon lost"@,
            Transition::BeaconRestored => "beacon restored"@,
            Transition::BHalted => "B halted (safe-mode)"@,
            Transition::BResumed => "B resumed"@,
            Transition::DangerOnset => "DANGER: B moving without localization"@,
            Transition::Recovered => "recovered"@,
        }
    }

    /// How the replay timeline words the transition.
    pub fn note(&self) -> (s: &'static str)
        ensures
            s@ == self.spec_note(),
    {
        match self {
            Transition::AOffline => "robot A dropped offline",
            Transition::AOnline => "robot A back online",
            Transition::BeaconJammed => "beacon jammed (interference)",
            Transition::TxDegraded => "transmitter degraded (brownout)",
            Transition::ChannelCleared => "channel cleared",
            Transition::BeaconLost => "beacon lost",
            Transition::BeaconRestored => "beacon restored",
            Transition::BHalted => "B halted (safe-mode)",
            Transition::BResumed => "B resumed",
            Transition::DangerOnset => "DANGER: B moving without localization",
            Transition::Recovered => "recovered",
        }
    }
}

/// `t` as a one-element sequence when `cond` holds, else nothing.
pub open spec fn if_seen(cond: bool, t: Transition) -> Seq<Transition> {
    if cond {
        seq![t]
    } else {
        Seq::<Transition>::empty()
    }
}

/// Every transition between two consecutive states, in timeline order.
pub open spec fn transitions_between(prev: SimState, next: SimState) -> Seq<Transition> {
    if_seen(prev.a_online && !next.a_online, Transition::AOffline)
        + if_seen(!prev.a_online && next.a_online, Transition::AOnline)
        + if_seen(!prev.beacon_jammed && next.beacon_jammed, Transition::BeaconJammed)
        + if_seen(!prev.tx_degraded && next.tx_degraded, Transition::TxDegraded)
        + if_seen(prev.beacon_jammed && !next.beacon_jammed, Transition::ChannelCleared)
        + if_seen(prev.beacon_up && !next.beacon_up, Transition::BeaconLost)
        + if_seen(!prev.beacon_up && next.beacon_up, Transition::BeaconRestored)
        + if_seen(!prev.b_halted && next.b_halted, Transition::BHalted)
        + if_seen(prev.b_halted && !next.b_halted, Transition::BResumed)
        + if_seen(!prev.dangerous_seen && next.dangerous_seen, Transition::DangerOnset)
        + if_seen(prev.recovered_tick is None && next.recovered_tick is Some, Transition::Recovered)
}

fn push_if(v: &mut Vec<Transition>, cond: bool, t: Transition)
    ensures
        final(v)@ == old(v)@ + if_seen(cond, t),
{
    if cond {
        v.push(t);
    } else {
        assert(old(v)@ + if_seen(cond, t) =~= old(v)@);
    }
}

/// The transitions from `prev` to `next`, in timeline order: what the event log
/// and the replay timeline record for one tick.
pub fn transitions(prev: &SimState, next: &SimState) -> (v: Vec<Transition>)
    ensures
        v@ == transitions_between(*prev, *next),
        v@.contains(Transition::AOffline) <==> (prev.a_online && !next.a_online),
        v@.contains(Transition::AOnline) <==> (!prev.a_online && next.a_online),
        v@.contains(Transition::BeaconJammed) <==> (!prev.beacon_jammed && next.beacon_jammed),
        v@.contains(Transition::TxDegraded) <==> (!prev.tx_degraded && next.tx_degraded),
        v@.contains(Transition::ChannelCleared) <==> (prev.beacon_jammed && !next.beacon_jammed),
        v@.contains(Transition::BeaconLost) <==> (prev.beacon_up && !next.beacon_up),
        v@.contains(Transition::BeaconRestored) <==> (!prev.beacon_up && next.beacon_up),
        v@.contains(Transition::BHalted) <==> (!prev.b_halted && next.b_halted),
        v@.contains(Transition::BResumed) <==> (prev.b_halted && !next.b_halted),
        v@.contains(Transition::DangerOnset) <==> (!prev.dangerous_seen && next.dangerous_seen),
        v@.contains(Transition::Recovered) <==> (prev.recovered_tick is None
            && next.recovered_tick is Some),
{
    let mut v: Vec<Transition> = Vec::new();
    push_if(&mut v, prev.a_online && !next.a_online, Transition::AOffline);
    push_if(&mut v, !prev.a_online && next.a_online, Transition::AOnline);
    push_if(&mut v, !prev.beacon_jammed && next.beacon_jammed, Transition::BeaconJammed);
    push_if(&mut v, !prev.tx_degraded && next.tx_degraded, Transition::TxDegraded);
    push_if(&mut v, prev.beacon_jammed && !next.beacon_jammed, Transition::ChannelCleared);
    push_if(&mut v, prev.beacon_up && !next.beacon_up, Transition::BeaconLost);
    push_if(&mut v, !prev.beacon_up && next.beacon_up, Transition::BeaconRestored);
    push_if(&mut v, !prev.b_halted && next.b_halted, Transition::BHalted);
    push_if(&mut v, prev.b_halted && !next.b_halted, Transition::BResumed);
    push_if(&mut v, !prev.dangerous_seen && next.dangerous_seen, Transition::DangerOnset);
    push_if(
        &mut v,
        prev.recovered_tick.is_none() && next.recovered_tick.is_some(),
        Transition::Recovered,
    );
    assert(v@ =~= Seq::<Transition>::empty() + transitions_between(*prev, *next));
    proof {
        lemma_transitions_are_exactly_the_flips(*prev, *next);
    }
    v
}

/// A state compared with itself has no transitions.
pub proof fn lemma_no_change_no_transitions(s: SimState)
    ensures
        transitions_between(s, s).len() == 0,
{
}

proof fn lemma_if_seen_contains(c: bool, t: Transition, x: Transition)
    ensures
        if_seen(c, t).contains(x) <==> (c && x == t),
{
    if c {
        assert(if_seen(c, t)[0] == t);
    }
}

/// Each transition is recorded exactly when its condition flips in the stated
/// direction between the two states: A going offline (or back online), the
/// channel jamming (or clearing), the transmitter degrading, the beacon
/// dropping (or returning), B being parked (or resuming), the danger latch
/// being set, and the recovery being stamped.
pub proof fn lemma_transitions_are_exactly_the_flips(prev: SimState, next: SimState)
    ensures
        transitions_between(prev, next).contains(Transition::AOffline) <==> (prev.a_online
            && !next.a_online),
        transitions_between(prev, next).contains(Transition::AOnline) <==> (!prev.a_online
            && next.a_online),
        transitions_between(prev, next).contains(Transition::BeaconJammed) <==> (
        !prev.beacon_jammed && next.beacon_jammed),
        transitions_between(prev, next).contains(Transition::TxDegraded) <==> (!prev.tx_degraded
            && next.tx_degraded),
        transitions_between(prev, next).contains(Transition::ChannelCleared) <==> (
        prev.beacon_jammed && !next.beacon_jammed),
        transitions_between(prev, next).contains(Transition::BeaconLost) <==> (prev.beacon_up
            && !next.beacon_up),
        transitions_between(prev, next).contains(Transition::BeaconRestored) <==> (
        !prev.beacon_up && next.beacon_up),
        transitions_between(prev, next).contains(Transition::BHalted) <==> (!prev.b_halted
            && next.b_halted),
        transitions_between(prev, next).contains(Transition::BResumed) <==> (prev.b_halted
            && !next.b_halted),
        transitions_between(prev, next).contains(Transition::DangerOnset) <==> (
        !prev.dangerous_seen && next.dangerous_seen),
        transitions_between(prev, next).contains(Transition::Recovered) <==> (
        prev.recovered_tick is None && next.recovered_tick is Some),
{
    lemma_pieces_contain(prev, next, Transition::AOffline);
    lemma_pieces_contain(prev, next, Transition::AOnline);
    lemma_pieces_contain(prev, next, Transition::BeaconJammed);
    lemma_pieces_contain(prev, next, Transition::TxDegraded);
    lemma_pieces_contain(prev, next, Transition::ChannelCleared);
    lemma_pieces_contain(prev, next, Transition::BeaconLost);
    lemma_pieces_contain(prev, next, Transition::BeaconRestored);
    lemma_pieces_contain(prev, next, Transition::BHalted);
    lemma_pieces_contain(prev, next, Transition::BResumed);
    lemma_pieces_contain(prev, next, Transition::DangerOnset);
    lemma_pieces_contain(prev, next, Transition::Recovered);
}

proof fn lemma_pieces_contain(prev: SimState, next: SimState, x: Transition)
    ensures
        transitions_between(prev, next).contains(x) <==> (
        (prev.a_online && !next.a_online && x == Transition::AOffline)
            || (!prev.a_online && next.a_online && x == Transition::AOnline)
            || (!prev.beacon_jammed && next.beacon_jammed && x == Transition::BeaconJammed)
            || (!prev.tx_degraded && next.tx_degraded && x == Transition::TxDegraded)
            || (prev.beacon_jammed && !next.beacon_jammed && x == Transition::ChannelCleared)
            || (prev.beacon_up && !next.beacon_up && x == Transition::BeaconLost)
            || (!prev.beacon_up && next.beacon_up && x == Transition::BeaconRestored)
            || (!prev.b_halted && next.b_halted && x == Transition::BHalted)
            || (prev.b_halted && !next.b_halted && x == Transition::BResumed)
            || (!prev.dangerous_seen && next.dangerous_seen && x == Transition::DangerOnset)
            || (prev.recovered_tick is None && next.recovered_tick is Some && x
            == Transition::Recovered)),
{
    let p0 = if_seen(prev.a_online && !next.a_online, Transition::AOffline);
    lemma_if_seen_contains(prev.a_online && !next.a_online, Transition::AOffline, x);
    let p1 = if_seen(!prev.a_online && next.a_online, Transition::AOnline);
    lemma_if_seen_contains(!prev.a_online && next.a_online, Transition::AOnline, x);
    let p2 = if_seen(!prev.beacon_jammed && next.beacon_jammed, Transition::BeaconJammed);
    lemma_if_seen_contains(!prev.beacon_jammed && next.beacon_jammed, Transition::BeaconJammed, x);
    let p3 = if_seen(!prev.tx_degraded && next.tx_degraded, Transition::TxDegraded);
    lemma_if_seen_contains(!prev.tx_degraded && next.tx_degraded, Transition::TxDegraded, x);
    let p4 = if_seen(prev.beacon_jammed && !next.beacon_jammed, Transition::ChannelCleared);
    lemma_if_seen_contains(prev.beacon_jammed && !next.beacon_jammed, Transition::ChannelCleared, x);
    let p5 = if_seen(prev.beacon_up && !next.beacon_up, Transition::BeaconLost);
    lemma_if_seen_contains(prev.beacon_up && !next.beacon_up, Transition::BeaconLost, x);
    let p6 = if_seen(!prev.beacon_up && next.beacon_up, Transition::BeaconRestored);
    lemma_if_seen_contains(!prev.beacon_up && next.beacon_up, Transition::BeaconRestored, x);
    let p7 = if_seen(!prev.b_halted && next.b_halted, Transition::BHalted);
    lemma_if_seen_contains(!prev.b_halted && next.b_halted, Transition::BHalted, x);
    let p8 = if_seen(prev.b_halted && !next.b_halted, Transition::BResumed);
    lemma_if_seen_contains(prev.b_halted && !next.b_halted, Transition::BResumed, x);
    let p9 = if_seen(!prev.dangerous_seen && next.dangerous_seen, Transition::DangerOnset);
    lemma_if_seen_contains(!prev.dangerous_seen && next.dangerous_seen, Transition::DangerOnset, x);
    let p10 = if_seen(prev.recovered_tick is None && next.recovered_tick is Some, Transition::Recovered);
    lemma_if_seen_contains(prev.recovered_tick is None && next.recovered_tick is Some, Transition::Recovered, x);
    let a0 = p0;
    let a1 = a0 + p1;
    vstd::seq_lib::lemma_seq_concat_contains_all_elements(a0, p1, x);
    let a2 = a1 + p2;
    vstd::seq_lib::lemma_seq_concat_contains_all_elements(a1, p2, x);
    let a3 = a2 + p3;
    vstd::seq_lib::lemma_seq_concat_contains_all_elements(a2, p3, x);
    let a4 = a3 + p4;
    vstd::seq_lib::lemma_seq_concat_contains_all_elements(a3, p4, x);
    let a5 = a4 + p5;
    vstd::seq_lib::lemma_seq_concat_contains_all_elements(a4, p5, x);
    let a6 = a5 + p6;
    vstd::seq_lib::lemma_seq_concat_contains_all_elements(a5, p6, x);
    let a7 = a6 + p7;
    vstd::seq_lib::lemma_seq_concat_contains_all_elements(a6, p7, x);
    let a8 = a7 + p8;
    vstd::seq_lib::lemma_seq_concat_contains_all_elements(a7, p8, x);
    let a9 = a8 + p9;
    vstd::seq_lib::lemma_seq_concat_contains_all_elements(a8, p9, x);
    let a10 = a9 + p10;
    vstd::seq_lib::lemma_seq_concat_contains_all_elements(a9, p10, x);
    assert(transitions_between(prev, next) == a10);
}

} // verus!

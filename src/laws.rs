use vstd::prelude::*;

use crate::command::{fire_time, BPCommand, ScriptCommand};
use crate::dispatch::{
    has_due, ingested, insert_entries, is_min_key, min_key, pass_spec, DispatchState,
};

verus! {

/// A state with nothing pending, no `Close` received, and the loop running.
pub open spec fn is_idle(s: DispatchState) -> bool {
    &&& s.pending.is_empty()
    &&& !s.closing
    &&& !s.terminated
}

proof fn lemma_single_min(k: u128, c: BPCommand)
    ensures
        is_min_key(map![k => c], k),
        min_key(map![k => c]) == k,
{
    let m = map![k => c];
    assert(is_min_key(m, k));
    assert(is_min_key(m, min_key(m)));
}

proof fn lemma_two_min(k1: u128, c1: BPCommand, k2: u128, c2: BPCommand)
    requires
        k1 < k2,
    ensures
        is_min_key(map![k1 => c1].insert(k2, c2), k1),
        min_key(map![k1 => c1].insert(k2, c2)) == k1,
{
    let m = map![k1 => c1].insert(k2, c2);
    assert(is_min_key(m, k1));
    assert(is_min_key(m, min_key(m)));
    assert(m.contains_key(k1));
}

/// A `VibrateFor(strength, duration)` with a positive duration, received at
/// `at` by an idle loop, gives exactly two emissions: `Vibrate(strength)` in a
/// pass at any `now1 >= at`, then `Stop` in a later pass at `now2` exactly when
/// `now2 >= at + duration`; after the `Stop` nothing is pending.
pub proof fn lemma_vibrate_for_emits_vibrate_then_stop(
    s: DispatchState,
    strength: u64,
    duration: u64,
    at: u64,
    now1: u64,
    now2: u64,
    at2: u64,
)
    requires
        is_idle(s),
        duration > 0,
        at <= now1,
    ensures
        ({
            let (s1, e1) = pass_spec(s, Some(ScriptCommand::VibrateFor(strength, duration)), at, now1);
            let (s2, e2) = pass_spec(s1, None, at2, now2);
            &&& e1 == Some(BPCommand::Vibrate(strength))
            &&& s1.pending == map![fire_time(at, duration) => BPCommand::Stop]
            &&& !s1.terminated
            &&& (e2 == Some(BPCommand::Stop) <==> now2 >= at + duration)
            &&& (e2 is None <==> now2 < at + duration)
            &&& (e2 is Some ==> is_idle(s2))
            &&& (e2 is None ==> s2 == s1)
        }),
{
    let cmd = ScriptCommand::VibrateFor(strength, duration);
    let k0 = at as u128;
    let k1 = fire_time(at, duration);
    let m = ingested(s.pending, Some(cmd), at);
    reveal_with_fuel(insert_entries, 3);
    assert(m =~= map![k0 => BPCommand::Vibrate(strength)].insert(k1, BPCommand::Stop));
    lemma_two_min(k0, BPCommand::Vibrate(strength), k1, BPCommand::Stop);
    assert(has_due(m, now1));
    let (s1, e1) = pass_spec(s, Some(cmd), at, now1);
    assert(s1.pending =~= map![k1 => BPCommand::Stop]);
    lemma_single_min(k1, BPCommand::Stop);
    assert(ingested(s1.pending, None, at2) == s1.pending);
    let (s2, e2) = pass_spec(s1, None, at2, now2);
    if now2 >= at + duration {
        assert(has_due(s1.pending, now2));
        assert(s2.pending =~= Map::<u128, BPCommand>::empty());
    } else {
        assert(!has_due(s1.pending, now2));
    }
}

/// A `Stop` received at `at` by an idle loop is emitted alone in a pass at any
/// `now >= at`, and the loop is idle again in the very same state: each `Stop`
/// submitted to an idle loop gives one `Stop` emission, independently of the
/// ones before.
pub proof fn lemma_stop_when_idle(s: DispatchState, at: u64, now: u64)
    requires
        is_idle(s),
        at <= now,
    ensures
        pass_spec(s, Some(ScriptCommand::Stop), at, now) == (s, Some(BPCommand::Stop)),
{
    let k = at as u128;
    let m = ingested(s.pending, Some(ScriptCommand::Stop), at);
    reveal_with_fuel(insert_entries, 2);
    assert(m =~= map![k => BPCommand::Stop]);
    lemma_single_min(k, BPCommand::Stop);
    let (s1, e1) = pass_spec(s, Some(ScriptCommand::Stop), at, now);
    assert(s1.pending =~= s.pending);
}

/// A `Close` received by an idle loop ends it in that pass with no emission.
pub proof fn lemma_close_when_idle(s: DispatchState, at: u64, now: u64)
    requires
        is_idle(s),
    ensures
        ({
            let (s1, e1) = pass_spec(s, Some(ScriptCommand::Close), at, now);
            &&& e1 is None
            &&& s1.terminated
            &&& s1.pending.is_empty()
        }),
{
    let m = ingested(s.pending, Some(ScriptCommand::Close), at);
    reveal_with_fuel(insert_entries, 1);
    assert(m == s.pending);
    assert(!has_due(m, now)) by {
        if exists|k: u128| is_min_key(m, k) {
            let k = choose|k: u128| is_min_key(m, k);
            assert(m.contains_key(k));
        }
    }
}

/// Once the loop has ended (by a `Close`, or by an emission that found no
/// receiver) a pass changes nothing and emits nothing: no further command is
/// processed.
pub proof fn lemma_terminated_is_final(
    s: DispatchState,
    msg: Option<ScriptCommand>,
    at: u64,
    now: u64,
)
    requires
        s.terminated,
    ensures
        pass_spec(s, msg, at, now) == (s, None::<BPCommand>),
{
}

/// A `Close` received in the pass after a `VibrateFor` ends the loop in that
/// pass, whatever the state before: each of the two passes emits at most one
/// command, and every later pass emits nothing.
pub proof fn lemma_close_after_vibrate_ends(
    s: DispatchState,
    strength: u64,
    duration: u64,
    at1: u64,
    now1: u64,
    at2: u64,
    now2: u64,
    msg: Option<ScriptCommand>,
    at3: u64,
    now3: u64,
)
    ensures
        ({
            let (s1, e1) = pass_spec(s, Some(ScriptCommand::VibrateFor(strength, duration)), at1, now1);
            let (s2, e2) = pass_spec(s1, Some(ScriptCommand::Close), at2, now2);
            &&& s2.terminated
            &&& pass_spec(s2, msg, at3, now3) == (s2, None::<BPCommand>)
        }),
{
}

/// Entries computed with the same fire time collapse into one: two `Stop`s
/// received at the same instant leave the schedule as one `Stop` does.
pub proof fn lemma_coincident_stops_collapse(m: Map<u128, BPCommand>, at: u64)
    ensures
        ingested(ingested(m, Some(ScriptCommand::Stop), at), Some(ScriptCommand::Stop), at)
            == ingested(m, Some(ScriptCommand::Stop), at),
        ingested(m, Some(ScriptCommand::Stop), at) == m.insert(at as u128, BPCommand::Stop),
{
    reveal_with_fuel(insert_entries, 2);
    let once = ingested(m, Some(ScriptCommand::Stop), at);
    assert(once =~= m.insert(at as u128, BPCommand::Stop));
    assert(ingested(once, Some(ScriptCommand::Stop), at) =~= once);
}

/// A `VibrateFor` with zero duration computes both of its entries at the same
/// fire time, so only the `Stop` is retained.
pub proof fn lemma_zero_duration_keeps_stop(m: Map<u128, BPCommand>, strength: u64, at: u64)
    ensures
        ingested(m, Some(ScriptCommand::VibrateFor(strength, 0)), at) == m.insert(
            at as u128,
            BPCommand::Stop,
        ),
{
    reveal_with_fuel(insert_entries, 3);
    assert(ingested(m, Some(ScriptCommand::VibrateFor(strength, 0)), at) =~= m.insert(
        at as u128,
        BPCommand::Stop,
    ));
}

/// A pass emits only the earliest pending entry, and only once its fire time
/// has come: every entry left pending fires no earlier.
pub proof fn lemma_emits_earliest_due(
    s: DispatchState,
    msg: Option<ScriptCommand>,
    at: u64,
    now: u64,
)
    ensures
        ({
            let (s1, e) = pass_spec(s, msg, at, now);
            let m = ingested(s.pending, msg, at);
            e matches Some(c) ==> exists|k: u128|
                {
                    &&& #[trigger] is_min_key(m, k)
                    &&& k <= now as u128
                    &&& m[k] == c
                    &&& s1.pending == m.remove(k)
                    &&& forall|j: u128| #[trigger] s1.pending.contains_key(j) ==> k <= j
                }
        }),
{
    let (s1, e) = pass_spec(s, msg, at, now);
    let m = ingested(s.pending, msg, at);
    if e is Some {
        let k = min_key(m);
        assert(is_min_key(m, k));
        assert(forall|j: u128| #[trigger] s1.pending.contains_key(j) ==> m.contains_key(j));
    }
}

} // verus!

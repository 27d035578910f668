//! What holds of every debouncer, proved from [`DebounceState`].
//!
//! The executable debouncer follows `DebounceState::update` step by step, so each law
//! holds of it as well, with the time of an update being the time at which its value
//! was sampled.

use crate::model::{DebounceState, Outcome};
use vstd::prelude::*;

verus! {

/// An update keeps the state well formed and never touches the debounce time.
/// The stable value changes only by promotion, it is what the update reports,
/// and once there is one it never goes missing again.
pub proof fn law_update_keeps_invariants<T>(state: DebounceState<T>, new_value: T, now: nat)
    ensures
        state.update(new_value, now).wf(),
        state.update(new_value, now).debounce_time == state.debounce_time,
        state.update(new_value, now).last_value == Some(new_value),
        state.update(new_value, now).last_stable == state.outcome(new_value, now).stable(),
        state.outcome(new_value, now).most_recent() == Some(new_value),
        state.last_stable is Some ==> state.update(new_value, now).last_stable is Some,
        state.last_stable == Some(new_value) ==> state.update(new_value, now).last_stable
            == Some(new_value),
        state.outcome(new_value, now) is Transitioned ==> state.update(new_value, now).last_stable
            == Some(new_value),
        !(state.outcome(new_value, now) is Transitioned) ==> state.update(
            new_value,
            now,
        ).last_stable == state.last_stable,
{
}

/// The time of the last change moves only when the raw value differs from the one before,
/// and then to the time of that update. A return to the stable value is no such change
/// as far as the clock goes: it leaves the time alone.
pub proof fn law_change_time_follows_raw_changes<T>(
    state: DebounceState<T>,
    new_value: T,
    now: nat,
)
    ensures
        state.last_value == Some(new_value) ==> state.update(new_value, now).last_change_time
            == state.last_change_time,
        state.last_stable == Some(new_value) ==> state.update(new_value, now).last_change_time
            == state.last_change_time,
        state.last_value != Some(new_value) && state.last_stable != Some(new_value)
            ==> state.update(new_value, now).last_change_time == now,
{
}

/// An update that reads the clock twice, at `changed` for the time of a change and at
/// `now` to judge the wait, is the update at `now` where both readings are the same, and
/// also where the raw value is the one before or the stable one. In any case the value
/// is promoted exactly if `now` lies the debounce time after the last change.
pub proof fn law_update_with_two_readings<T>(
    state: DebounceState<T>,
    new_value: T,
    changed: nat,
    now: nat,
)
    ensures
        ({
            let noticed = state.noticed(new_value, changed);
            &&& state.wf() ==> noticed.wf()
            &&& changed == now || state.last_value == Some(new_value) || state.last_stable == Some(
                new_value,
            ) ==> {
                &&& noticed.update(new_value, now) == state.update(new_value, now)
                &&& noticed.outcome(new_value, now) == state.outcome(new_value, now)
            }
            &&& state.last_stable == Some(new_value) <==> noticed.outcome(new_value, now)
                == Outcome::Stable { value: new_value }
            &&& state.last_stable != Some(new_value) ==> (noticed.outcome(new_value, now)
                is Transitioned <==> now >= state.change_time(new_value, changed)
                + state.debounce_time)
            &&& state.last_stable != Some(new_value) ==> (noticed.outcome(new_value, now)
                is Unstable <==> now < state.change_time(new_value, changed) + state.debounce_time)
        }),
{
}

/// A state whose raw value is its stable value is left as it is by updates with that
/// value, however many there are and whenever they come.
pub proof fn lemma_resting_state_is_fixed<T>(
    state: DebounceState<T>,
    value: T,
    samples: Seq<(T, nat)>,
)
    requires
        state.last_stable == Some(value),
        state.last_value == Some(value),
        forall|i: int| 0 <= i < samples.len() ==> samples[i].0 == value,
    ensures
        state.update_all(samples) == state,
    decreases samples.len(),
{
    if samples.len() > 0 {
        lemma_resting_state_is_fixed(state, value, samples.drop_last());
    }
}

/// A state that waits for its raw value to be promoted is left as it is by updates with
/// that value that come before the debounce time has passed.
pub proof fn lemma_waiting_state_is_fixed<T>(
    state: DebounceState<T>,
    value: T,
    samples: Seq<(T, nat)>,
)
    requires
        state.last_stable != Some(value),
        state.last_value == Some(value),
        forall|i: int| 0 <= i < samples.len() ==> samples[i].0 == value,
        forall|i: int|
            0 <= i < samples.len() ==> samples[i].1 < state.last_change_time + state.debounce_time,
    ensures
        state.update_all(samples) == state,
    decreases samples.len(),
{
    if samples.len() > 0 {
        lemma_waiting_state_is_fixed(state, value, samples.drop_last());
    }
}

/// The stable value is at every moment the one that the last promotion set: after any
/// updates it is the value of the last of them that reported `Transitioned`, and the
/// stable value from before where none did. Nothing else changes it.
pub proof fn law_stable_is_last_promotion<T>(state: DebounceState<T>, samples: Seq<(T, nat)>)
    ensures
        state.update_all(samples).last_stable == state.last_promoted(samples),
        state.update_all(samples).debounce_time == state.debounce_time,
        state.wf() ==> state.update_all(samples).wf(),
    decreases samples.len(),
{
    if samples.len() > 0 {
        law_stable_is_last_promotion(state, samples.drop_last());
    }
}

/// Idempotent stability: a debouncer that was started with a value answers every update
/// with that value by `Stable`, and none of them changes its state, the time of the last
/// change included.
pub proof fn law_stable_value_stays_stable<T>(
    initial_value: T,
    debounce_time: nat,
    start: nat,
    samples: Seq<(T, nat)>,
    now: nat,
)
    requires
        forall|i: int| 0 <= i < samples.len() ==> samples[i].0 == initial_value,
    ensures
        ({
            let started = DebounceState::started(initial_value, debounce_time, start);
            &&& started.update_all(samples) == started
            &&& started.update_all(samples).outcome(initial_value, now) == Outcome::Stable {
                value: initial_value,
            }
        }),
{
    let started = DebounceState::started(initial_value, debounce_time, start);
    lemma_resting_state_is_fixed(started, initial_value, samples);
}

/// A return to the stable value needs no wait: after an update with another value that
/// left the debouncer unstable, an update with the stable value reports `Stable` at any
/// time, keeps the stable value and does not restart the clock.
pub proof fn law_return_to_stable_needs_no_wait<T>(
    stable: T,
    other: T,
    debounce_time: nat,
    start: nat,
    left: nat,
    returned: nat,
)
    requires
        other != stable,
        debounce_time > 0,
    ensures
        ({
            let started = DebounceState::started(stable, debounce_time, start);
            let unstable = started.update(other, left);
            &&& started.outcome(other, left) == Outcome::Unstable {
                stable: Some(stable),
                most_recent: Some(other),
            }
            &&& unstable.outcome(stable, returned) == Outcome::Stable { value: stable }
            &&& unstable.update(stable, returned).last_stable == Some(stable)
            &&& unstable.update(stable, returned).last_change_time == unstable.last_change_time
        }),
{
}

/// The promotion threshold: after a change to `changed` at `at`, every update with that
/// value before `at + debounce_time` reports `Unstable` and leaves the state alone; the
/// first at or after it reports `Transitioned`; and every update with that value after
/// that reports `Stable`.
pub proof fn law_promotion_threshold<T>(
    stable: T,
    changed: T,
    debounce_time: nat,
    start: nat,
    at: nat,
    early: Seq<(T, nat)>,
    due: nat,
    late: Seq<(T, nat)>,
    now: nat,
)
    requires
        changed != stable,
        debounce_time > 0,
        forall|i: int| 0 <= i < early.len() ==> early[i].0 == changed,
        forall|i: int| 0 <= i < early.len() ==> early[i].1 < at + debounce_time,
        forall|i: int| 0 <= i < late.len() ==> late[i].0 == changed,
        due >= at + debounce_time,
    ensures
        ({
            let started = DebounceState::started(stable, debounce_time, start);
            let waiting = started.update(changed, at);
            let promoted = waiting.update(changed, due);
            &&& started.outcome(changed, at) == Outcome::Unstable {
                stable: Some(stable),
                most_recent: Some(changed),
            }
            &&& waiting.update_all(early) == waiting
            &&& now < at + debounce_time ==> waiting.outcome(changed, now) == Outcome::Unstable {
                stable: Some(stable),
                most_recent: Some(changed),
            }
            &&& waiting.outcome(changed, due) == Outcome::Transitioned {
                stable: changed,
                previous_stable: Some(stable),
            }
            &&& promoted.update_all(late) == promoted
            &&& promoted.outcome(changed, now) == Outcome::Stable { value: changed }
        }),
{
    let started = DebounceState::started(stable, debounce_time, start);
    let waiting = started.update(changed, at);
    let promoted = waiting.update(changed, due);
    lemma_waiting_state_is_fixed(waiting, changed, early);
    lemma_resting_state_is_fixed(promoted, changed, late);
}

/// A flicker restarts the clock: when the raw value changes again before it was promoted,
/// the wait starts over at the time of the second change, whenever the first one was.
pub proof fn law_flicker_restarts_clock<T>(
    stable: T,
    first: T,
    second: T,
    debounce_time: nat,
    start: nat,
    first_at: nat,
    second_at: nat,
    now: nat,
)
    requires
        first != stable,
        second != stable,
        second != first,
        debounce_time > 0,
    ensures
        ({
            let started = DebounceState::started(stable, debounce_time, start);
            let flickered = started.update(first, first_at).update(second, second_at);
            &&& flickered.last_stable == Some(stable)
            &&& flickered.last_change_time == second_at
            &&& now < second_at + debounce_time ==> flickered.outcome(second, now)
                == Outcome::Unstable { stable: Some(stable), most_recent: Some(second) }
            &&& now < second_at + debounce_time ==> flickered.update(second, now) == flickered
            &&& now >= second_at + debounce_time ==> flickered.outcome(second, now)
                == Outcome::Transitioned { stable: second, previous_stable: Some(stable) }
        }),
{
}

/// A debouncer that was started without a value knows nothing until the first update,
/// reports the first value as unstable, and promotes it once it has held for the
/// debounce time, on an update or on a read.
pub proof fn law_unknown_start<T>(
    debounce_time: nat,
    start: nat,
    first: T,
    first_at: nat,
    now: nat,
)
    ensures
        ({
            let started = DebounceState::<T>::started_unknown(debounce_time, start);
            let seen = started.update(first, first_at);
            &&& started.wf()
            &&& started.read_outcome(now) == Outcome::<T>::Unstable {
                stable: None,
                most_recent: None,
            }
            &&& started.read(now) == started
            &&& debounce_time > 0 ==> started.outcome(first, first_at) == Outcome::Unstable {
                stable: None,
                most_recent: Some(first),
            }
            &&& started.outcome(first, first_at) is Transitioned <==> debounce_time == 0
            &&& debounce_time > 0 && now < first_at + debounce_time ==> {
                &&& seen.outcome(first, now) == Outcome::Unstable {
                    stable: None,
                    most_recent: Some(first),
                }
                &&& seen.update(first, now) == seen
            }
            &&& debounce_time > 0 && now >= first_at + debounce_time ==> {
                &&& seen.outcome(first, now) == Outcome::Transitioned {
                    stable: first,
                    previous_stable: None,
                }
                &&& seen.read_outcome(now) == seen.outcome(first, now)
                &&& seen.read(now) == seen.update(first, now)
            }
        }),
{
}

/// With a debounce time of zero a change of the raw value is promoted by the very update
/// that brings it, whatever the time; and where the update reads the clock twice,
/// as long as the clock has not run backwards between the readings.
pub proof fn law_zero_debounce_promotes_at_once<T>(
    state: DebounceState<T>,
    new_value: T,
    changed: nat,
    now: nat,
)
    requires
        state.debounce_time == 0,
        state.last_value != Some(new_value),
    ensures
        state.update(new_value, now).last_stable == Some(new_value),
        changed <= now ==> state.noticed(new_value, changed).update(new_value, now).last_stable
            == Some(new_value),
        state.last_stable != Some(new_value) ==> state.outcome(new_value, now) == (
        Outcome::Transitioned { stable: new_value, previous_stable: state.last_stable }),
        state.last_stable == Some(new_value) ==> state.outcome(new_value, now) == (
        Outcome::Stable { value: new_value }),
{
}

} // verus!

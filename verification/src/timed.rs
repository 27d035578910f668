//! The debouncer itself.

use crate::model::{DebounceState, Outcome};
use crate::state::State;
use crate::time::{Duration, Instant, Monotonic};
use crate::value::{InitializedValue, UninitializedValue, Value};
use core::marker::PhantomData;
use vstd::laws_eq::obeys_concrete_eq;
use vstd::prelude::*;

verus! {

/// Represents a debouncer for handling signal noise in digital input signals.
/// It stabilizes the signal over a specified debounce period.
///
/// `M` is the clock that [`TimedDebouncer::update`] reads. What an update does is stated
/// for values whose `==` is plain equality, as it is for integers and `bool`.
#[verifier::reject_recursive_types(M)]
#[verifier::reject_recursive_types(T)]
#[verifier::reject_recursive_types(V)]
pub struct TimedDebouncer<M: Monotonic, T, V: Value<T = T> = InitializedValue<T>> {
    last_stable: V,
    last_value: V,
    last_change_time: Instant,
    debounce_time: Duration,
    clock: PhantomData<M>,
}

impl<M: Monotonic, T, V: Value<T = T>> View for TimedDebouncer<M, T, V> {
    type V = DebounceState<T>;

    closed spec fn view(&self) -> DebounceState<T> {
        DebounceState {
            last_stable: self.last_stable.held(),
            last_value: self.last_value.held(),
            last_change_time: self.last_change_time@,
            debounce_time: self.debounce_time@,
        }
    }
}

impl<M: Monotonic, T, V: Value<T = T>> TimedDebouncer<M, T, V> {
    #[verifier::type_invariant]
    spec fn inv(self) -> bool {
        self@.wf()
    }
}

impl<M, T> TimedDebouncer<M, T, InitializedValue<T>> where M: Monotonic, T: Copy {
    /// Creates a new Debouncer with a known initial value.
    pub fn new(initial_value: T, debounce_time: Duration) -> (debouncer: Self)
        ensures
            debouncer@ == DebounceState::started(
                initial_value,
                debounce_time@,
                debouncer@.last_change_time,
            ),
    {
        Self {
            last_stable: InitializedValue::holding(initial_value),
            last_value: InitializedValue::holding(initial_value),
            last_change_time: M::now(),
            debounce_time,
            clock: PhantomData,
        }
    }
}

impl<M, T> TimedDebouncer<M, T, UninitializedValue<T>> where M: Monotonic, T: Copy {
    /// Creates a new Debouncer that starts with an unknown state.
    pub fn new_unknown(debounce_time: Duration) -> (debouncer: Self)
        ensures
            debouncer@ == DebounceState::<T>::started_unknown(
                debounce_time@,
                debouncer@.last_change_time,
            ),
    {
        Self {
            last_stable: Default::default(),
            last_value: Default::default(),
            last_change_time: M::now(),
            debounce_time,
            clock: PhantomData,
        }
    }
}

impl<M, T, V> TimedDebouncer<M, T, V> where M: Monotonic, T: PartialEq + Copy, V: Value<T = T> {
    /// The first step of an update: a value equal to the stable one is taken in at once,
    /// whatever the time.
    fn take_stable(&mut self, new_value: T) -> (state: Option<State<T, V>>)
        ensures
            final(self)@.wf(),
            final(self)@.debounce_time == old(self)@.debounce_time,
            state is None ==> *final(self) == *old(self),
            state is Some ==> state->0@.stable() == final(self)@.last_stable,
            obeys_concrete_eq::<T>() ==> (state is Some <==> old(self)@.last_stable == Some(
                new_value,
            )),
            obeys_concrete_eq::<T>() && state is Some ==> {
                &&& state->0@ == Outcome::Stable { value: new_value }
                &&& final(self)@ == (DebounceState { last_value: Some(new_value), ..old(self)@ })
            },
    {
        proof {
            use_type_invariant(&*self);
            reveal(obeys_concrete_eq);
        }
        if let Some(last_stable) = self.last_stable.try_get() {
            if last_stable == new_value {
                // value stayed stable or returned to stable
                self.last_value = V::holding(new_value);
                return Some(State::Stable { value: last_stable });
            }
        }
        None
    }

    /// Whether `new_value` differs from the raw value of the update before,
    /// or is the first there is.
    fn is_change(&self, new_value: T) -> (change: bool)
        ensures
            obeys_concrete_eq::<T>() ==> change == (self@.last_value != Some(new_value)),
    {
        proof {
            reveal(obeys_concrete_eq);
        }
        if let Some(last_value) = self.last_value.try_get() {
            // value changed since last update
            last_value != new_value
        } else {
            // first value
            true
        }
    }

    /// The last step of an update, for a value other than the stable one: records it,
    /// and promotes it where it has held long enough at `now`.
    fn judge(&mut self, new_value: T, now: Instant) -> (state: State<T, V>)
        ensures
            final(self)@.wf(),
            state@.stable() == final(self)@.last_stable,
            final(self)@ == (DebounceState {
                last_value: Some(new_value),
                last_stable: state@.stable(),
                ..old(self)@
            }),
            now@ >= old(self)@.last_change_time + old(self)@.debounce_time ==> state@ == (
            Outcome::Transitioned { stable: new_value, previous_stable: old(self)@.last_stable }),
            now@ < old(self)@.last_change_time + old(self)@.debounce_time ==> state@ == (
            Outcome::Unstable { stable: old(self)@.last_stable, most_recent: Some(new_value) }),
    {
        self.last_value = V::holding(new_value);

        if now.has_reached(self.last_change_time, self.debounce_time) {
            // transitioned to a new state
            let last_stable = self.last_stable;
            self.last_stable = V::holding(new_value);
            State::Transitioned { stable: new_value, previous_stable: last_stable.get() }
        } else {
            // not stable at the moment
            State::Unstable { stable: self.last_stable.get(), most_recent: V::known(new_value) }
        }
    }

    /// Updates the debouncer state with a new value that was sampled at `now`,
    /// and returns the current state.
    pub fn update_at(&mut self, new_value: T, now: Instant) -> (state: State<T, V>)
        ensures
            final(self)@.wf(),
            final(self)@.debounce_time == old(self)@.debounce_time,
            state@.stable() == final(self)@.last_stable,
            obeys_concrete_eq::<T>() ==> final(self)@ == old(self)@.update(new_value, now@),
            obeys_concrete_eq::<T>() ==> state@ == old(self)@.outcome(new_value, now@),
    {
        match self.take_stable(new_value) {
            Some(state) => state,
            None => {
                if self.is_change(new_value) {
                    self.last_change_time = now;
                }
                self.judge(new_value, now)
            },
        }
    }

    /// Updates the debouncer state with a new value and returns the current state.
    ///
    /// The clock is read when the value differs from the one before, for the time of the
    /// change, and once more to judge the wait. It is not read for a value equal to the
    /// stable one. On a clock that shows one time during the call the update is
    /// [`TimedDebouncer::update_at`] that time.
    pub fn update(&mut self, new_value: T) -> (state: State<T, V>)
        ensures
            final(self)@.wf(),
            final(self)@.debounce_time == old(self)@.debounce_time,
            state@.stable() == final(self)@.last_stable,
            obeys_concrete_eq::<T>() ==> exists|changed: Instant, now: Instant|
                {
                    &&& final(self)@ == #[trigger] old(self)@.noticed(new_value, changed@).update(
                        new_value,
                        now@,
                    )
                    &&& state@ == old(self)@.noticed(new_value, changed@).outcome(new_value, now@)
                },
    {
        match self.take_stable(new_value) {
            Some(state) => {
                assert(obeys_concrete_eq::<T>() ==> self@ == old(self)@.noticed(
                    new_value,
                    self.last_change_time@,
                ).update(new_value, self.last_change_time@));
                state
            },
            None => {
                let ghost before = self@;
                let ghost mut changed = self.last_change_time;
                if self.is_change(new_value) {
                    self.last_change_time = M::now();
                    proof {
                        changed = self.last_change_time;
                    }
                }
                let now = M::now();
                let state = self.judge(new_value, now);
                assert(obeys_concrete_eq::<T>() ==> self@ == before.noticed(
                    new_value,
                    changed@,
                ).update(new_value, now@));
                state
            },
        }
    }

    /// Reads the current state of the debouncer at `now`, updating it with the last known value.
    ///
    /// Where no value was ever seen, nothing changes.
    pub fn read_at(&mut self, now: Instant) -> (state: State<T, V>)
        ensures
            final(self)@.wf(),
            final(self)@.debounce_time == old(self)@.debounce_time,
            old(self)@.last_value is None ==> *final(self) == *old(self),
            state@.stable() == final(self)@.last_stable,
            obeys_concrete_eq::<T>() ==> final(self)@ == old(self)@.read(now@),
            obeys_concrete_eq::<T>() ==> state@ == old(self)@.read_outcome(now@),
    {
        proof {
            use_type_invariant(&*self);
        }
        if let Some(last_value) = self.last_value.try_get() {
            self.update_at(last_value, now)
        } else {
            State::Unstable { stable: self.last_stable.get(), most_recent: self.last_value.get() }
        }
    }

    /// Reads the current state of the debouncer, updating it with the last known value.
    ///
    /// Where no value was ever seen, nothing changes and the clock is not read.
    pub fn read(&mut self) -> (state: State<T, V>)
        ensures
            final(self)@.wf(),
            final(self)@.debounce_time == old(self)@.debounce_time,
            old(self)@.last_value is None ==> *final(self) == *old(self),
            state@.stable() == final(self)@.last_stable,
            obeys_concrete_eq::<T>() ==> exists|now: Instant|
                {
                    &&& final(self)@ == #[trigger] old(self)@.read(now@)
                    &&& state@ == old(self)@.read_outcome(now@)
                },
    {
        proof {
            use_type_invariant(&*self);
        }
        // Update the debouncer with the current value to potentially change its state.
        if let Some(last_value) = self.last_value.try_get() {
            let state = self.update(last_value);
            proof {
                if obeys_concrete_eq::<T>() {
                    let (changed, now) = choose|changed: Instant, now: Instant|
                        {
                            &&& self@ == #[trigger] old(self)@.noticed(last_value, changed@).update(
                                last_value,
                                now@,
                            )
                            &&& state@ == old(self)@.noticed(last_value, changed@).outcome(
                                last_value,
                                now@,
                            )
                        };
                    assert(self@ == old(self)@.read(now@));
                }
            }
            state
        } else {
            assert(self@ == self@.read(self.last_change_time@));
            State::Unstable { stable: self.last_stable.get(), most_recent: self.last_value.get() }
        }
    }

    /// Reads the current stable value, if available. Potentially updating the internal state.
    pub fn read_value(&mut self) -> (value: V::V)
        ensures
            final(self)@.wf(),
            final(self)@.debounce_time == old(self)@.debounce_time,
            V::reading(value) == final(self)@.last_stable,
            obeys_concrete_eq::<T>() ==> exists|now: Instant|
                {
                    &&& final(self)@ == #[trigger] old(self)@.read(now@)
                    &&& V::reading(value) == old(self)@.read_outcome(now@).stable()
                },
    {
        let state = self.read();
        proof {
            if obeys_concrete_eq::<T>() {
                let now = choose|now: Instant|
                    {
                        &&& self@ == #[trigger] old(self)@.read(now@)
                        &&& state@ == old(self)@.read_outcome(now@)
                    };
                assert(self@ == old(self)@.read(now@));
            }
        }
        state.stable()
    }

    /// Reads the current stable value, if available. This does not update the internal state and just returns the last stable value.
    pub fn read_stable(&self) -> (value: V::V)
        ensures
            V::reading(value) == self@.last_stable,
    {
        self.last_stable.get()
    }
}

} // verus!

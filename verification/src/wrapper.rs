//! A debouncer joined to the source of its raw values.

use crate::model::DebounceState;
use crate::state::State;
use crate::time::{Duration, Instant, Monotonic};
use crate::timed::TimedDebouncer;
use crate::value::InitializedValue;
use vstd::laws_eq::obeys_concrete_eq;
use vstd::prelude::*;

verus! {

/// Trait to interface with [`DebouncedInput`].
pub trait Input<T> {
    /// Read the current state of the input
    fn read(&mut self) -> T;
}

/// Generic debouncing wrapper for any input implementing [`Input`].
#[verifier::reject_recursive_types(M)]
#[verifier::reject_recursive_types(T)]
pub struct DebouncedInput<M: Monotonic, T: Copy, I> {
    debouncer: TimedDebouncer<M, T, InitializedValue<T>>,
    input: I,
}

impl<M: Monotonic, T: Copy, I> View for DebouncedInput<M, T, I> {
    type V = DebounceState<T>;

    /// The state of the debouncer inside.
    closed spec fn view(&self) -> DebounceState<T> {
        self.debouncer@
    }
}

impl<M, T, I> DebouncedInput<M, T, I> where I: Input<T>, M: Monotonic, T: Copy + PartialEq {
    /// Creates a new [`DebouncedInput`] by wrapping an [`Input`]
    ///
    /// The input is read once, and what it returns is the starting value.
    pub fn new(mut input: I, debounce_time: Duration) -> (debounced: Self)
        ensures
            debounced@.last_stable is Some,
            debounced@ == DebounceState::started(
                debounced@.last_stable->0,
                debounce_time@,
                debounced@.last_change_time,
            ),
    {
        let initial_value = input.read();
        Self { debouncer: TimedDebouncer::new(initial_value, debounce_time), input }
    }

    /// Read the current state of the input.
    ///
    /// The input is read once, and the debouncer is updated with what it returns.
    pub fn read(&mut self) -> (state: State<T, InitializedValue<T>>)
        ensures
            final(self)@.wf(),
            final(self)@.debounce_time == old(self)@.debounce_time,
            state@.stable() == final(self)@.last_stable,
            obeys_concrete_eq::<T>() ==> exists|new_value: T, changed: Instant, now: Instant|
                {
                    &&& final(self)@ == #[trigger] old(self)@.noticed(new_value, changed@).update(
                        new_value,
                        now@,
                    )
                    &&& state@ == old(self)@.noticed(new_value, changed@).outcome(new_value, now@)
                },
    {
        let new_value = self.input.read();
        self.debouncer.update(new_value)
    }
}

impl<M, T, I> DebouncedInput<M, T, I> where M: Monotonic, T: Copy + PartialEq {
    /// Read the last stable state of the input.
    pub fn read_stable(&self) -> (value: T)
        ensures
            Some(value) == self@.last_stable,
    {
        self.debouncer.read_stable()
    }
}

/// Trait to simplify conversion to DebouncedInput.
/// Has a blanket implementation for [`Input<T>`]
pub trait IntoDebounced<M: Monotonic, T> where T: Copy, Self: Sized {
    /// Convert an Input to a [`DebouncedInput`].
    fn debounce(self, debounce_time: Duration) -> (debounced: DebouncedInput<M, T, Self>)
        ensures
            debounced@.last_stable is Some,
            debounced@ == DebounceState::started(
                debounced@.last_stable->0,
                debounce_time@,
                debounced@.last_change_time,
            ),
    ;
}

impl<M, T, I> IntoDebounced<M, T> for I where I: Input<T>, M: Monotonic, T: Copy + PartialEq {
    fn debounce(self, debounce_time: Duration) -> (debounced: DebouncedInput<M, T, I>) {
        DebouncedInput::new(self, debounce_time)
    }
}

} // verus!

//! What an update of a debouncer returns.

use crate::model::Outcome;
use crate::value::Value;
use vstd::prelude::*;

verus! {

/// Represents the state of a debounced input.
///
/// The fields that may be missing have the type `V::V`: plain `T` for a debouncer that
/// was given a starting value, `Option<T>` for one that was not.
#[derive(Debug, PartialEq, Eq)]
#[verifier::reject_recursive_types(T)]
#[verifier::reject_recursive_types(V)]
#[allow(inconsistent_fields)]
pub enum State<T, V: Value<T = T>> {
    /// Indicates a stable state with a known value.
    Stable {
        /// Current stable value.
        value: T,
    },
    /// Indicates an unstable state where the value is fluctuating.
    Unstable {
        /// Current stable value.
        stable: V::V,
        /// Most recent but potentially unstable value.
        most_recent: V::V,
    },
    /// Indicates that a transition has occurred to a new stable state.
    Transitioned {
        /// New stable value after transition.
        stable: T,
        /// Old stable value before this transition.
        previous_stable: V::V,
    },
}

impl<T, V: Value<T = T>> View for State<T, V> {
    type V = Outcome<T>;

    /// The same outcome with every field that may be missing written as an `Option`.
    open spec fn view(&self) -> Outcome<T> {
        match *self {
            State::Stable { value } => Outcome::Stable { value },
            State::Unstable { stable, most_recent } => Outcome::Unstable {
                stable: V::reading(stable),
                most_recent: V::reading(most_recent),
            },
            State::Transitioned { stable, previous_stable } => Outcome::Transitioned {
                stable,
                previous_stable: V::reading(previous_stable),
            },
        }
    }
}

impl<T: Copy, V: Value<T = T>> State<T, V> {
    /// Returns the current stable value of the state, if available.
    pub fn stable(&self) -> (value: V::V)
        ensures
            V::reading(value) == self@.stable(),
    {
        match self {
            State::Stable { value } => V::known(*value),
            State::Unstable { stable, most_recent: _ } => *stable,
            State::Transitioned { stable: new_stable, previous_stable: _ } => V::known(*new_stable),
        }
    }

    /// Returns the most recent value of the state, if available. This value is potentially not stable yet.
    pub fn most_recent(&self) -> (value: V::V)
        ensures
            V::reading(value) == self@.most_recent(),
    {
        match self {
            State::Stable { value } => V::known(*value),
            State::Unstable { stable: _, most_recent } => *most_recent,
            State::Transitioned { stable: new_stable, previous_stable: _ } => V::known(*new_stable),
        }
    }

    /// The same as [`State::stable`].
    pub fn stable_value(&self) -> (value: V::V)
        ensures
            V::reading(value) == self@.stable(),
    {
        self.stable()
    }

    /// The same as [`State::most_recent`].
    pub fn most_recent_value(&self) -> (value: V::V)
        ensures
            V::reading(value) == self@.most_recent(),
    {
        self.most_recent()
    }
}

impl<T, V: Value<T = T>> State<T, V> {
    /// Checks if the state has transitioned to a new value.
    pub fn transitioned(&self) -> (transitioned: bool)
        ensures
            transitioned == (self@ is Transitioned),
    {
        match self {
            State::Transitioned { stable: _, previous_stable: _ } => true,
            _ => false,
        }
    }

    /// Two states that show the same outcome are the same state.
    pub proof fn view_is_injective(self, other: Self)
        requires
            self@ == other@,
        ensures
            self == other,
    {
        match (self, other) {
            (
                State::Unstable { stable, most_recent },
                State::Unstable { stable: other_stable, most_recent: other_recent },
            ) => {
                V::reading_is_injective(stable, other_stable);
                V::reading_is_injective(most_recent, other_recent);
            },
            (
                State::Transitioned { stable: _, previous_stable },
                State::Transitioned { stable: _, previous_stable: other_previous },
            ) => {
                V::reading_is_injective(previous_stable, other_previous);
            },
            _ => {},
        }
    }
}

} // verus!

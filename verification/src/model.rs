//! The debouncer as a mathematical value, and what one update does to it.
//!
//! Everything here is ghost code: the executable debouncer is proved to follow it.

use vstd::prelude::*;

verus! {

/// What one update reports, with a missing value written as `None`.
#[allow(inconsistent_fields)]
pub enum Outcome<T> {
    /// The raw value equals the stable value.
    Stable {
        /// The stable value.
        value: T,
    },
    /// The raw value differs from the stable value and has not held long enough.
    Unstable {
        /// The stable value, if there is one yet.
        stable: Option<T>,
        /// The raw value, if one was ever seen.
        most_recent: Option<T>,
    },
    /// The raw value has held long enough and became the stable value in this update.
    Transitioned {
        /// The new stable value.
        stable: T,
        /// The stable value before this update, if there was one.
        previous_stable: Option<T>,
    },
}

impl<T> Outcome<T> {
    /// The stable value after the update.
    pub open spec fn stable(self) -> Option<T> {
        match self {
            Outcome::Stable { value } => Some(value),
            Outcome::Unstable { stable, most_recent } => stable,
            Outcome::Transitioned { stable, previous_stable } => Some(stable),
        }
    }

    /// The raw value that the update was given.
    pub open spec fn most_recent(self) -> Option<T> {
        match self {
            Outcome::Stable { value } => Some(value),
            Outcome::Unstable { stable, most_recent } => most_recent,
            Outcome::Transitioned { stable, previous_stable } => Some(stable),
        }
    }
}

/// The state of a debouncer. Times are in ticks.
pub struct DebounceState<T> {
    /// The stable value: the last raw value that was promoted.
    pub last_stable: Option<T>,
    /// The raw value of the latest update.
    pub last_value: Option<T>,
    /// When the raw value last differed from the one before it.
    pub last_change_time: nat,
    /// How long a raw value must hold before it is promoted.
    pub debounce_time: nat,
}

impl<T> DebounceState<T> {
    /// Every debouncer is in such a state: no value is stable before one was seen.
    pub open spec fn wf(self) -> bool {
        self.last_value is None ==> self.last_stable is None
    }

    /// The state of a debouncer made at `now` with a known starting value.
    pub open spec fn started(initial_value: T, debounce_time: nat, now: nat) -> Self {
        DebounceState {
            last_stable: Some(initial_value),
            last_value: Some(initial_value),
            last_change_time: now,
            debounce_time,
        }
    }

    /// The state of a debouncer made at `now` without a starting value.
    pub open spec fn started_unknown(debounce_time: nat, now: nat) -> Self {
        DebounceState { last_stable: None, last_value: None, last_change_time: now, debounce_time }
    }

    /// The time of the last raw change, once `new_value` has been taken in at `now`:
    /// a value other than the previous one restarts the clock.
    pub open spec fn change_time(self, new_value: T, now: nat) -> nat {
        if self.last_value == Some(new_value) {
            self.last_change_time
        } else {
            now
        }
    }

    /// The state in the middle of an update with `new_value`, once a value other than the
    /// stable one has been recorded at `now` and before its wait is judged.
    ///
    /// An update that reads the clock anew to judge the wait goes on from here.
    pub open spec fn noticed(self, new_value: T, now: nat) -> Self {
        if self.last_stable == Some(new_value) {
            self
        } else {
            DebounceState {
                last_value: Some(new_value),
                last_change_time: self.change_time(new_value, now),
                ..self
            }
        }
    }

    /// Whether `new_value`, taken in at `now`, has held for the debounce time.
    pub open spec fn held_long_enough(self, new_value: T, now: nat) -> bool {
        now >= self.change_time(new_value, now) + self.debounce_time
    }

    /// What an update with `new_value` at `now` reports.
    pub open spec fn outcome(self, new_value: T, now: nat) -> Outcome<T> {
        if self.last_stable == Some(new_value) {
            Outcome::Stable { value: new_value }
        } else if self.held_long_enough(new_value, now) {
            Outcome::Transitioned { stable: new_value, previous_stable: self.last_stable }
        } else {
            Outcome::Unstable { stable: self.last_stable, most_recent: Some(new_value) }
        }
    }

    /// The state after an update with `new_value` at `now`.
    ///
    /// A return to the stable value leaves the clock alone. Any other value is promoted
    /// once it has held for the debounce time, counted from the last raw change.
    pub open spec fn update(self, new_value: T, now: nat) -> Self {
        if self.last_stable == Some(new_value) {
            DebounceState { last_value: Some(new_value), ..self }
        } else {
            DebounceState {
                last_stable: if self.held_long_enough(new_value, now) {
                    Some(new_value)
                } else {
                    self.last_stable
                },
                last_value: Some(new_value),
                last_change_time: self.change_time(new_value, now),
                debounce_time: self.debounce_time,
            }
        }
    }

    /// The state after the updates `samples` in that order, each a raw value and the time
    /// at which it was sampled.
    pub open spec fn update_all(self, samples: Seq<(T, nat)>) -> Self
        decreases samples.len(),
    {
        if samples.len() == 0 {
            self
        } else {
            self.update_all(samples.drop_last()).update(samples.last().0, samples.last().1)
        }
    }

    /// The value that the last promotion among the updates `samples` made stable,
    /// or the stable value before them where none of them promoted anything.
    pub open spec fn last_promoted(self, samples: Seq<(T, nat)>) -> Option<T>
        decreases samples.len(),
    {
        if samples.len() == 0 {
            self.last_stable
        } else if self.update_all(samples.drop_last()).outcome(samples.last().0, samples.last().1)
            is Transitioned {
            Some(samples.last().0)
        } else {
            self.last_promoted(samples.drop_last())
        }
    }

    /// What a read at `now` reports: an update with the last raw value,
    /// or nothing known where no raw value was ever seen.
    pub open spec fn read_outcome(self, now: nat) -> Outcome<T> {
        match self.last_value {
            Some(value) => self.outcome(value, now),
            None => Outcome::Unstable { stable: None, most_recent: None },
        }
    }

    /// The state after a read at `now`.
    pub open spec fn read(self, now: nat) -> Self {
        match self.last_value {
            Some(value) => self.update(value, now),
            None => self,
        }
    }
}

} // verus!

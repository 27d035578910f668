//! Time-based debouncing of a sampled signal.
//!
//! A [`TimedDebouncer`] turns a noisy raw value, sampled at any rate, into a stable one
//! that changes only after the raw value has held for a configured time. The time comes
//! from a [`Monotonic`] clock, so the polling interval and the debounce time are
//! independent of each other.
//!
//! ```ignore
//! use stabilizer::{Duration, State, TimedDebouncer};
//!
//! // `Timer` implements `Monotonic` for a timer that ticks once per microsecond.
//! let mut debouncer = TimedDebouncer::<Timer, _>::new(false, Duration::from_ticks(10_000));
//!
//! loop {
//!     match debouncer.update(button.is_pressed()) {
//!         State::Stable { value } => show(value),
//!         State::Unstable { stable, most_recent: _ } => show(stable),
//!         State::Transitioned { stable, previous_stable: _ } => react_to(stable),
//!     }
//! }
//! ```
//!
//! A debouncer made with [`TimedDebouncer::new_unknown`] has no stable value until the
//! first raw value has held for the debounce time. [`DebouncedInput`] joins a debouncer
//! to an [`Input`] that it reads by itself.
//!
//! What every function does is stated against [`DebounceState`], the debouncer as a
//! mathematical value, and proved. The properties that follow for every debouncer are
//! proved in [`laws`].

pub mod laws;
pub mod model;
mod sealed;
pub mod state;
pub mod time;
pub mod timed;
pub mod value;
pub mod wrapper;

pub use model::{DebounceState, Outcome};
pub use state::State;
pub use time::{Duration, Instant, Monotonic};
pub use timed::TimedDebouncer;
pub use value::{InitializedValue, UninitializedValue, Value};
pub use wrapper::{DebouncedInput, Input, IntoDebounced};

//! The smaller parts: states, value containers, instants and durations.

use stabilizer::{Duration, InitializedValue, Instant, State, UninitializedValue, Value};

type Known = State<u8, InitializedValue<u8>>;
type Unknown = State<u8, UninitializedValue<u8>>;

#[test]
fn stable_part_of_a_state() {
    assert_eq!(Known::Stable { value: 1 }.stable(), 1);
    assert_eq!(
        Known::Unstable {
            stable: 1,
            most_recent: 2
        }
        .stable(),
        1
    );
    assert_eq!(
        Known::Transitioned {
            stable: 2,
            previous_stable: 1
        }
        .stable(),
        2
    );
    assert_eq!(Unknown::Stable { value: 1 }.stable(), Some(1));
    assert_eq!(
        Unknown::Unstable {
            stable: None,
            most_recent: Some(2)
        }
        .stable(),
        None
    );
    assert_eq!(
        Unknown::Unstable {
            stable: Some(1),
            most_recent: Some(2)
        }
        .stable(),
        Some(1)
    );
    assert_eq!(
        Unknown::Transitioned {
            stable: 2,
            previous_stable: None
        }
        .stable(),
        Some(2)
    );
}

#[test]
fn most_recent_part_of_a_state() {
    assert_eq!(Known::Stable { value: 1 }.most_recent(), 1);
    assert_eq!(
        Known::Unstable {
            stable: 1,
            most_recent: 2
        }
        .most_recent(),
        2
    );
    assert_eq!(
        Known::Transitioned {
            stable: 2,
            previous_stable: 1
        }
        .most_recent(),
        2
    );
    assert_eq!(Unknown::Stable { value: 1 }.most_recent(), Some(1));
    assert_eq!(
        Unknown::Unstable {
            stable: None,
            most_recent: None
        }
        .most_recent(),
        None
    );
    assert_eq!(
        Unknown::Unstable {
            stable: None,
            most_recent: Some(2)
        }
        .most_recent(),
        Some(2)
    );
    assert_eq!(
        Unknown::Transitioned {
            stable: 2,
            previous_stable: Some(1)
        }
        .most_recent(),
        Some(2)
    );
}

#[test]
fn value_accessors_agree_with_the_short_names() {
    let states = [
        Unknown::Stable { value: 1 },
        Unknown::Unstable {
            stable: None,
            most_recent: Some(2),
        },
        Unknown::Unstable {
            stable: Some(3),
            most_recent: Some(4),
        },
        Unknown::Transitioned {
            stable: 5,
            previous_stable: Some(6),
        },
    ];
    for state in states {
        assert_eq!(state.stable_value(), state.stable());
        assert_eq!(state.most_recent_value(), state.most_recent());
    }
    assert_eq!(
        Known::Unstable {
            stable: 3,
            most_recent: 4
        }
        .stable_value(),
        3
    );
    assert_eq!(
        Known::Unstable {
            stable: 3,
            most_recent: 4
        }
        .most_recent_value(),
        4
    );
}

#[test]
fn only_a_transition_has_transitioned() {
    assert!(!Known::Stable { value: 1 }.transitioned());
    assert!(!Known::Unstable {
        stable: 1,
        most_recent: 2
    }
    .transitioned());
    assert!(Known::Transitioned {
        stable: 2,
        previous_stable: 1
    }
    .transitioned());
    assert!(Unknown::Transitioned {
        stable: 2,
        previous_stable: None
    }
    .transitioned());
    assert!(!Unknown::Unstable {
        stable: None,
        most_recent: None
    }
    .transitioned());
}

#[test]
fn initialized_value_always_holds_one() {
    let held = InitializedValue::holding(7u8);
    assert_eq!(held.get(), 7);
    assert_eq!(held.try_get(), Some(7));
    assert_eq!(*held, 7);
    assert_eq!(InitializedValue::from(7u8), held);
    assert_eq!(<InitializedValue<u8> as Value>::known(9), 9);
}

#[test]
fn uninitialized_value_starts_empty() {
    let empty = UninitializedValue::<u8>::default();
    assert_eq!(empty.get(), None);
    assert_eq!(empty.try_get(), None);
    assert_eq!(*empty, None);
    let held = UninitializedValue::holding(7u8);
    assert_eq!(held.get(), Some(7));
    assert_eq!(held.try_get(), Some(7));
    assert_eq!(*held, Some(7));
    assert_eq!(UninitializedValue::from(7u8), held);
    assert_ne!(held, empty);
    assert_eq!(<UninitializedValue<u8> as Value>::known(9), Some(9));
}

#[test]
fn ticks_go_in_and_out() {
    assert_eq!(Instant::from_ticks(0).ticks(), 0);
    assert_eq!(Instant::from_ticks(123_456).ticks(), 123_456);
    assert_eq!(Instant::from_ticks(u64::MAX).ticks(), u64::MAX);
    assert_eq!(Duration::from_ticks(0).ticks(), 0);
    assert_eq!(Duration::from_ticks(10_000).ticks(), 10_000);
    assert_eq!(Duration::from_ticks(u64::MAX).ticks(), u64::MAX);
    assert!(Instant::from_ticks(1) < Instant::from_ticks(2));
    assert!(Duration::from_ticks(3) > Duration::from_ticks(2));
}

fn reached(now: u64, start: u64, span: u64) -> bool {
    Instant::from_ticks(now).has_reached(Instant::from_ticks(start), Duration::from_ticks(span))
}

#[test]
fn has_reached_compares_with_the_sum() {
    assert!(reached(13, 3, 10));
    assert!(reached(14, 3, 10));
    assert!(!reached(12, 3, 10));
    assert!(reached(3, 3, 0));
    assert!(!reached(2, 3, 0));
    assert!(reached(0, 0, 0));
    assert!(!reached(0, 0, 1));
}

#[test]
fn has_reached_never_overflows() {
    assert!(!reached(u64::MAX, u64::MAX, 1));
    assert!(reached(u64::MAX, u64::MAX, 0));
    assert!(!reached(u64::MAX, 1, u64::MAX));
    assert!(reached(u64::MAX, 0, u64::MAX));
    assert!(!reached(u64::MAX, u64::MAX, u64::MAX));
    assert!(!reached(0, u64::MAX, u64::MAX));
    assert!(reached(u64::MAX, u64::MAX - 5, 5));
    assert!(!reached(u64::MAX, u64::MAX - 5, 6));
}

//! The two ways a debouncer can hold a value: always, or only once one has been recorded.

use crate::sealed::Sealed;
use core::ops::Deref;
use vstd::prelude::*;
use vstd::std_specs::convert::FromSpecImpl;

verus! {

/// A container for the values of a debouncer.
///
/// [`InitializedValue`] always holds a value and hands it out as `T`.
/// [`UninitializedValue`] starts out empty and hands out an `Option<T>`.
/// The debouncer is written once against this trait and specialised at compile time.
pub trait Value: Deref<Target = Self::V> + Sealed + Copy {
    /// The type of the debounced values.
    type T: Copy;

    /// What a reader is handed: `T` itself, or `Option<T>` where the value may be missing.
    type V: Copy;

    /// The value that the container holds, if it holds one.
    spec fn held(&self) -> Option<Self::T>;

    /// The value that a reading stands for, if it stands for one.
    spec fn reading(v: Self::V) -> Option<Self::T>;

    /// A reading is determined by what it stands for.
    proof fn reading_is_injective(a: Self::V, b: Self::V)
        requires
            Self::reading(a) == Self::reading(b),
        ensures
            a == b,
    ;

    /// Reads the container.
    fn get(&self) -> (v: Self::V)
        ensures
            Self::reading(v) == self.held(),
    ;

    /// The held value, or `None` where there is none yet.
    fn try_get(&self) -> (value: Option<Self::T>)
        ensures
            value == self.held(),
    ;

    /// A container that holds `value`.
    fn holding(value: Self::T) -> (container: Self)
        ensures
            container.held() == Some(value),
    ;

    /// The reading that stands for `value`.
    fn known(value: Self::T) -> (v: Self::V)
        ensures
            Self::reading(v) == Some(value),
    ;
}

/// A container that starts out empty.
#[derive(Clone, Copy, PartialEq, Eq, Debug)]
pub struct UninitializedValue<T>(Option<T>);

impl<T> Sealed for UninitializedValue<T> {

}

impl<T: Copy> Value for UninitializedValue<T> {
    type T = T;

    type V = Option<T>;

    closed spec fn held(&self) -> Option<T> {
        self.0
    }

    open spec fn reading(v: Option<T>) -> Option<T> {
        v
    }

    proof fn reading_is_injective(a: Option<T>, b: Option<T>) {
    }

    #[inline(always)]
    fn get(&self) -> (v: Option<T>) {
        self.0
    }

    #[inline(always)]
    fn try_get(&self) -> (value: Option<T>) {
        self.0
    }

    #[inline(always)]
    fn holding(value: T) -> (container: Self) {
        UninitializedValue(Some(value))
    }

    #[inline(always)]
    fn known(value: T) -> (v: Option<T>) {
        Some(value)
    }
}

impl<T: Copy> Default for UninitializedValue<T> {
    /// The empty container.
    fn default() -> (container: Self)
        ensures
            container.held() is None,
    {
        UninitializedValue(None)
    }
}

impl<T: Copy> Deref for UninitializedValue<T> {
    type Target = Option<T>;

    #[inline(always)]
    fn deref(&self) -> (v: &Option<T>)
        ensures
            *v == self.held(),
    {
        &self.0
    }
}

impl<T: Copy> From<T> for UninitializedValue<T> {
    #[inline(always)]
    fn from(value: T) -> (container: Self)
        ensures
            container.held() == Some(value),
    {
        UninitializedValue(Some(value))
    }
}

impl<T: Copy> FromSpecImpl<T> for UninitializedValue<T> {
    open spec fn obeys_from_spec() -> bool {
        true
    }

    closed spec fn from_spec(value: T) -> Self {
        UninitializedValue(Some(value))
    }
}

/// A container that always holds a value.
#[derive(Clone, Copy, PartialEq, Eq, Debug)]
pub struct InitializedValue<T>(T);

impl<T> Sealed for InitializedValue<T> {

}

impl<T: Copy> Value for InitializedValue<T> {
    type T = T;

    type V = T;

    closed spec fn held(&self) -> Option<T> {
        Some(self.0)
    }

    open spec fn reading(v: T) -> Option<T> {
        Some(v)
    }

    proof fn reading_is_injective(a: T, b: T) {
    }

    #[inline(always)]
    fn get(&self) -> (v: T) {
        self.0
    }

    #[inline(always)]
    fn try_get(&self) -> (value: Option<T>) {
        Some(self.0)
    }

    #[inline(always)]
    fn holding(value: T) -> (container: Self) {
        InitializedValue(value)
    }

    #[inline(always)]
    fn known(value: T) -> (v: T) {
        value
    }
}

impl<T: Copy> Deref for InitializedValue<T> {
    type Target = T;

    #[inline(always)]
    fn deref(&self) -> (v: &T)
        ensures
            Some(*v) == self.held(),
    {
        &self.0
    }
}

impl<T: Copy> From<T> for InitializedValue<T> {
    #[inline(always)]
    fn from(value: T) -> (container: Self)
        ensures
            container.held() == Some(value),
    {
        InitializedValue(value)
    }
}

impl<T: Copy> FromSpecImpl<T> for InitializedValue<T> {
    open spec fn obeys_from_spec() -> bool {
        true
    }

    closed spec fn from_spec(value: T) -> Self {
        InitializedValue(value)
    }
}

} // verus!

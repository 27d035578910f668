use vstd::prelude::*;

verus! {

/// Keeps [`crate::Value`] closed: only the containers of this crate implement it.
pub trait Sealed {

}

} // verus!

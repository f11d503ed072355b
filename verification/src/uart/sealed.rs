use vstd::prelude::*;

verus! {

/// Closes the set of protocol states: nothing outside this crate can
/// implement it.
pub trait Sealed {

}

} // verus!

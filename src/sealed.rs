use vstd::prelude::*;

verus! {

/// Implemented only by the parameter types of this crate, so that no other
/// crate can add a parameter set whose declared sizes disagree with its
/// primitive.
pub trait Sealed {}

} // verus!

//! Algorithm identity: a stable name and numeric identifier per scheme.
use vstd::prelude::*;

verus! {

/// Identity of a concrete scheme type.
pub trait Algorithm {
    /// The scheme's numeric identifier.
    const ID: u32;

    /// The scheme's name, as text.
    spec fn spec_name() -> Seq<char>;

    /// The scheme's name.
    fn name() -> (r: String)
        ensures
            r@ == Self::spec_name(),
    ;
}

/// The compile-time constants that identify one parameter set.
pub trait SchemeParams {
    const NAME: &'static str;
    const ID: u32;
}

} // verus!

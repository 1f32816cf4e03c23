use vstd::prelude::*;

verus! {

/// A marker trait: each implementor is a classification tag that decides
/// which values the guard accepts. `checks_finite` tells whether the tag
/// demands a finite value.
pub trait FpMarker: Sized + Copy {
    spec fn checks_finite() -> bool;
}

/// Hope you can swim 'cause you're on your own, buddy.
#[derive(Clone, Copy, Debug, Default, Eq, Hash, Ord, PartialEq, PartialOrd)]
pub struct Deflated;

impl FpMarker for Deflated {
    open spec fn checks_finite() -> bool {
        false
    }
}

/// A finite floating point number.
#[derive(Clone, Copy, Debug, Default, Eq, Hash, Ord, PartialEq, PartialOrd)]
pub struct Finite;

impl FpMarker for Finite {
    open spec fn checks_finite() -> bool {
        true
    }
}

} // verus!

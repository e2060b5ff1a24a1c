//! Acceptance tests on parsed values.
//!
//! A validator is a value implementing [`Validate`]: a mathematical
//! acceptance predicate `spec_accepts` over the view of the target type,
//! and a verified executable test that follows it exactly.  A few
//! ready-made validators cover the common cases, and callers may add
//! their own by implementing the trait.

use vstd::prelude::*;

verus! {

/// An acceptance test on parsed values of type `T`.
pub trait Validate<T: View> {
    /// The acceptance predicate, over the view of the value.
    spec fn spec_accepts(&self, v: T::V) -> bool;

    /// Run the acceptance test, exactly as `spec_accepts` says.
    fn accepts(&self, v: &T) -> (r: bool)
        ensures
            r == self.spec_accepts(v@),
    ;
}

/// The validator that accepts every value; an input configured without
/// an acceptance test uses no validator at all, and this one stands in
/// for the missing type parameter.
#[derive(Debug)]
pub struct AcceptAny;

impl<T: View> Validate<T> for AcceptAny {
    open spec fn spec_accepts(&self, v: T::V) -> bool {
        true
    }

    fn accepts(&self, v: &T) -> (r: bool) {
        true
    }
}

/// A strict upper bound on an integer value.
#[derive(Debug)]
pub struct LessThan {
    pub bound: u32,
}

impl Validate<u32> for LessThan {
    open spec fn spec_accepts(&self, v: u32) -> bool {
        v < self.bound
    }

    fn accepts(&self, v: &u32) -> (r: bool) {
        *v < self.bound
    }
}

} // verus!

//! A trait meant to serve as a generic bound from another module than the
//! one defining the generic functions, mirroring a bound imported from a
//! foreign package.
use vstd::prelude::*;

verus! {

/// The foreign bound: generic functions constrain their type parameter by
/// this trait, and resolution of calls on such a parameter monomorphizes per
/// concrete instantiation.
pub trait BoundTrait {
    /// The receivers on which the implementation's `method` is defined.
    open spec fn bound_ok(&self) -> bool {
        true
    }

    /// The value `method` returns.
    spec fn bound_method_spec(&self) -> i32;

    fn method(&self) -> (r: i32)
        requires
            self.bound_ok(),
        ensures
            r == self.bound_method_spec(),
    ;
}

} // verus!

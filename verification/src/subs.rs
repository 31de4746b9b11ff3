//! Submodule fixtures: one trait with three implementing types, enlarging
//! the candidate set of a dynamic dispatch on the trait.
use vstd::prelude::*;

verus! {

/// The trait the three types implement.
pub trait SubTrait {
    /// The receivers on which the implementation's `sub` is defined.
    open spec fn st_ok(&self) -> bool {
        true
    }

    /// The value `sub` returns.
    spec fn st_sub_spec(&self) -> i32;

    fn sub(&self) -> (r: i32)
        requires
            self.st_ok(),
        ensures
            r == self.st_sub_spec(),
    ;
}

/// Returns its counter unchanged.
pub struct Sub(pub i32);

impl SubTrait for Sub {
    open spec fn st_sub_spec(&self) -> i32 {
        self.0
    }

    fn sub(&self) -> (r: i32) {
        self.0
    }
}

/// Returns its counter less one.
pub struct Sub1(pub i32);

impl SubTrait for Sub1 {
    open spec fn st_ok(&self) -> bool {
        self.0 - 1 >= i32::MIN
    }

    open spec fn st_sub_spec(&self) -> i32 {
        (self.0 - 1) as i32
    }

    fn sub(&self) -> (r: i32) {
        self.0 - 1
    }
}

/// Returns its counter less two.
pub struct Sub2(pub i32);

impl SubTrait for Sub2 {
    open spec fn st_ok(&self) -> bool {
        self.0 - 2 >= i32::MIN
    }

    open spec fn st_sub_spec(&self) -> i32 {
        (self.0 - 2) as i32
    }

    fn sub(&self) -> (r: i32) {
        self.0 - 2
    }
}

} // verus!

//! `Thin`: a unit type implementing `FooTrait`, `GenericFooTrait` at two
//! instantiations, and `DefaultTrait` without overriding its defaulted
//! result specifications.
use vstd::prelude::*;

use crate::traits::DefaultTrait;
use crate::traits::FooTrait;
use crate::traits::GenericFooTrait;

verus! {

/// A unit type standing next to `Fat` in the dynamic-dispatch candidate
/// sets.
pub struct Thin;

impl FooTrait for Thin {
    open spec fn foo_method_spec(&self) -> u32 {
        0
    }

    fn method(&self) -> (r: u32) {
        0
    }
}

impl GenericFooTrait<i32> for Thin {
    open spec fn gf_method_spec(&self) -> i32 {
        42
    }

    fn method(&self) -> (r: i32) {
        42
    }
}

impl GenericFooTrait<u32> for Thin {
    open spec fn gf_method_spec(&self) -> u32 {
        42
    }

    fn method(&self) -> (r: u32) {
        42
    }
}

impl DefaultTrait for Thin {
    fn default_method(&self) -> (r: u32) {
        0
    }

    fn default_method_no_self() -> (r: u32) {
        0
    }
}

} // verus!

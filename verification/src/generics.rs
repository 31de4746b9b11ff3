//! Monomorphization fixtures: generic functions bounded by a trait of this
//! module and by the foreign [`crate::bounds::BoundTrait`], a generic struct
//! with an inherent impl, and the impls that give the bounds their concrete
//! instantiations. Every call on a bound parameter resolves statically, once
//! per instantiation.
use vstd::prelude::*;

use crate::bounds::BoundTrait as ForeignBoundTrait;
use crate::structs::One as ForeignOne;
use crate::traits::GenericFooTrait;

verus! {

/// A unit type instantiating the foreign bound.
pub struct One;

/// A second unit type instantiating the foreign bound, so that two distinct
/// instantiations exist.
pub struct Two;

/// The local bound: generic functions of this module constrain their type
/// parameter by it.
pub trait BoundTrait {
    /// The receivers on which the implementation's `method` is defined.
    open spec fn bt_ok(&self) -> bool {
        true
    }

    /// The value `method` returns.
    spec fn bt_method_spec(&self) -> i32;

    fn method(&self) -> (r: i32)
        requires
            self.bt_ok(),
        ensures
            r == self.bt_method_spec(),
    ;
}

impl BoundTrait for ForeignOne {
    open spec fn bt_method_spec(&self) -> i32 {
        1
    }

    fn method(&self) -> (r: i32) {
        1
    }
}

impl ForeignBoundTrait for One {
    open spec fn bound_method_spec(&self) -> i32 {
        1
    }

    fn method(&self) -> (r: i32) {
        1
    }
}

impl ForeignBoundTrait for Two {
    open spec fn bound_method_spec(&self) -> i32 {
        2
    }

    fn method(&self) -> (r: i32) {
        2
    }
}

impl GenericFooTrait<i32> for Two {
    open spec fn gf_method_spec(&self) -> i32 {
        42
    }

    fn method(&self) -> (r: i32) {
        42
    }
}

/// A generic struct with an inherent impl: its methods monomorphize together
/// with the struct.
pub struct Wrapper<T>(pub T);

impl<T: BoundTrait> Wrapper<T> {
    pub fn new(object: T) -> (r: Self)
        ensures
            r.0 == object,
    {
        Wrapper(object)
    }

    /// A generic receiver method call inside a generic struct: resolution
    /// goes to the instantiation's impl of the bound.
    pub fn method_wrapper(&self) -> (r: i32)
        requires
            self.0.bt_ok(),
        ensures
            r == self.0.bt_method_spec(),
    {
        self.0.method()
    }
}

/// A generic function bounded by the local [`BoundTrait`].
pub fn monomorphized<T: BoundTrait>(arg: T) -> (r: i32)
    requires
        arg.bt_ok(),
    ensures
        r == arg.bt_method_spec(),
{
    arg.method()
}

/// A generic function bounded by the foreign
/// [`crate::bounds::BoundTrait`]: the bound lives in another module than the
/// function and the instantiating types.
pub fn monomorphized_foreign_bound<T: ForeignBoundTrait>(arg: T) -> (r: i32)
    requires
        arg.bound_ok(),
    ensures
        r == arg.bound_method_spec(),
{
    arg.method()
}

/// The `impl Trait` spelling of [`monomorphized_foreign_bound`]: the same
/// resolution, a slightly different surface form.
pub fn impl_trait(arg: impl ForeignBoundTrait) -> (r: i32)
    requires
        arg.bound_ok(),
    ensures
        r == arg.bound_method_spec(),
{
    arg.method()
}

/// A generic function bounded by the generic trait concretized at `i32`.
pub fn monomorphized_i32<T: GenericFooTrait<i32>>(arg: T) -> (r: i32)
    requires
        arg.gf_ok(),
    ensures
        r == arg.gf_method_spec(),
{
    arg.method()
}

/// The same bound spelled with a `where` clause, generic in the trait's type
/// argument as well.
pub fn monomorphized_where<T, P>(arg: T) -> (r: P) where T: GenericFooTrait<P>
    requires
        arg.gf_ok(),
    ensures
        r == arg.gf_method_spec(),
{
    arg.method()
}

} // verus!

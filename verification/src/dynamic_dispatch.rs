//! Dynamic-dispatch fixtures: functions that take trait objects and call
//! methods on them. Each contract speaks through the trait's spec functions,
//! which a trait object carries with it, so the promise holds whatever
//! implementer hides behind the reference.
use vstd::prelude::*;

use crate::fat::Fat;
use crate::thin::Thin;
use crate::traits::DefaultTrait;
use crate::traits::FooTrait;
use crate::traits::GenericFooTrait;

verus! {

/// A dynamically dispatched method call on a trait object.
pub fn dynamic(x: &dyn FooTrait) -> (r: u32)
    requires
        x.foo_ok(),
    ensures
        r == x.foo_method_spec(),
{
    x.method()
}

/// The same dispatch spelled with fully qualified syntax; the receiver is
/// still a trait object, so the call still dispatches dynamically.
pub fn dynamic_ufcs(x: &dyn FooTrait) -> (r: u32)
    requires
        x.foo_ok(),
    ensures
        r == x.foo_method_spec(),
{
    FooTrait::method(x)
}

/// Dynamic dispatch on a trait with defaulted result specifications: an
/// implementer that keeps the defaults answers zero, one that overrides
/// answers its own value, and the contract covers both through the spec
/// function.
pub fn dynamic_default(x: &dyn DefaultTrait) -> (r: u32)
    requires
        x.default_ok(),
    ensures
        r == x.default_method_spec(),
{
    x.default_method()
}

/// Dynamic dispatch on a generic trait object: the concrete type argument
/// picks which of a type's several implementations the object carries.
pub fn dynamic_generic<T>(x: &dyn GenericFooTrait<T>) -> (r: T)
    requires
        x.gf_ok(),
    ensures
        r == x.gf_method_spec(),
{
    GenericFooTrait::<T>::method(x)
}

/// Drives the dynamic-dispatch fixtures on a `Fat` and a `Thin`, through
/// coercion at the call and through bound trait objects; the contracts of
/// the calls are checked at this site.
pub fn run()
{
    let fat = Fat(10);
    let n1 = dynamic(&fat);
    let n2 = dynamic_ufcs(&fat);
    assert(n1 == 20 && n2 == 20);
    let thin = Thin;
    let fat_object: &dyn FooTrait = &fat;
    let thin_object: &dyn FooTrait = &thin;
    let n3 = fat_object.method();
    let n4 = thin_object.method();
    assert(n3 == 20 && n4 == 0);
}

} // verus!

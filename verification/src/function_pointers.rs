//! Indirect-call fixtures: functions that take another function as a value
//! and call it. The callee is a generic `Fn` value — the verifier has no
//! bare function-pointer type — and each contract passes the callee's own
//! pre- and postcondition through, the idiom for higher-order functions.
use vstd::prelude::*;

use crate::fat::Fat;
use crate::traits::FooTrait;

verus! {

/// Calls `fun` on a concrete receiver through the function value.
pub fn indirection<F: Fn(&Fat) -> u32>(foo: &Fat, fun: F) -> (r: u32)
    requires
        call_requires(fun, (foo,)),
    ensures
        call_ensures(fun, (foo,), r),
{
    fun(foo)
}

/// Calls a generic function value on a generic receiver.
pub fn indirection_generic<T: FooTrait, F: Fn(&T) -> u32>(foo: &T, fun: F) -> (r: u32)
    requires
        call_requires(fun, (foo,)),
    ensures
        call_ensures(fun, (foo,), r),
{
    fun(foo)
}

/// Calls a function value that itself takes a trait object as argument.
pub fn indirection_trait_object<F: Fn(&dyn FooTrait) -> u32>(foo: &dyn FooTrait, fun: F) -> (r:
    u32)
    requires
        call_requires(fun, (foo,)),
    ensures
        call_ensures(fun, (foo,), r),
{
    fun(foo)
}

/// Calls through a borrowed `Fn` value, the closest the fixtures come to an
/// `Fn`-trait object.
pub fn indirection_fn_trait<F: Fn(&Fat) -> u32>(foo: &Fat, fun: &F) -> (r: u32)
    requires
        call_requires(*fun, (foo,)),
    ensures
        call_ensures(*fun, (foo,), r),
{
    fun(foo)
}

/// A helper of the signature the pointer fixtures match; never called
/// directly, yet a sound signature-structural analysis must keep it in the
/// candidate set next to [`m2`].
pub fn m1(obj: &dyn FooTrait) -> (r: u32)
    requires
        obj.foo_ok(),
    ensures
        r == obj.foo_method_spec(),
{
    obj.method()
}

/// The helper actually passed to [`indirection_trait_object`].
pub fn m2(obj: &dyn FooTrait) -> (r: u32)
    requires
        obj.foo_ok(),
    ensures
        r == obj.foo_method_spec(),
{
    obj.method()
}

/// Runs one benchmark entry handed over as a function value.
pub fn run_benchmark<F: Fn() -> ()>(bench: F)
    requires
        call_requires(bench, ()),
    ensures
        call_ensures(bench, (), ()),
{
    bench();
}

/// Drives the indirect-call fixtures on a `Fat`, handing over an inherent
/// method and a trait method; the contracts of the calls are checked at this
/// site.
pub fn run()
{
    let f = Fat(10);
    let n1 = indirection(&f, Fat::method);
    assert(n1 == 10);
    let n2 = indirection(&f, <Fat as FooTrait>::method);
    assert(n2 == 20);
    let n3 = indirection_generic(&f, Fat::method);
    assert(n3 == 10);
    let n5 = indirection_fn_trait(&f, &Fat::method);
    assert(n5 == 10);
}

} // verus!

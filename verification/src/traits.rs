//! The trait fixtures: small traits whose impls exercise every dispatch form
//! the resolver classifies. Each executable trait method carries a contract
//! over two spec functions the implementing type fills in: a predicate
//! naming the receivers the implementation is defined on, and the value the
//! method returns.
use vstd::prelude::*;

verus! {

/// A one-method trait, implemented by `Fat` and `Thin`, the usual subject of
/// the dynamic-dispatch fixtures.
pub trait FooTrait {
    /// The receivers on which the implementation's `method` is defined.
    open spec fn foo_ok(&self) -> bool {
        true
    }

    /// The value `method` returns.
    spec fn foo_method_spec(&self) -> u32;

    fn method(&self) -> (r: u32)
        requires
            self.foo_ok(),
        ensures
            r == self.foo_method_spec(),
    ;
}

/// A three-method trait sharing its method names with inherent methods of
/// `Fat`, to exercise method-lookup precedence.
pub trait BarTrait {
    /// The receivers on which the implementation's methods are defined.
    open spec fn bar_ok(&self) -> bool {
        true
    }

    /// The value `method` returns.
    spec fn bar_method_spec(&self) -> u32;

    /// The value `another_method` returns.
    spec fn bar_another_method_spec(&self) -> u32;

    /// The value `yet_another_method` returns.
    spec fn bar_yet_another_method_spec(&self) -> u32;

    fn method(&self) -> (r: u32)
        requires
            self.bar_ok(),
        ensures
            r == self.bar_method_spec(),
    ;

    fn another_method(&self) -> (r: u32)
        requires
            self.bar_ok(),
        ensures
            r == self.bar_another_method_spec(),
    ;

    fn yet_another_method(&self) -> (r: u32)
        requires
            self.bar_ok(),
        ensures
            r == self.bar_yet_another_method_spec(),
    ;
}

/// A trait sharing the name `another_method` with `BarTrait`, so that a call
/// site with both in scope needs qualified syntax to disambiguate.
pub trait BazTrait {
    /// The receivers on which the implementation's method is defined.
    open spec fn baz_ok(&self) -> bool {
        true
    }

    /// The value `another_method` returns.
    spec fn baz_another_method_spec(&self) -> u32;

    fn another_method(&self) -> (r: u32)
        requires
            self.baz_ok(),
        ensures
            r == self.baz_another_method_spec(),
    ;
}

/// A generic trait: `Thin` implements it at two instantiations, so a call
/// must pick the concrete type argument to disambiguate.
pub trait GenericFooTrait<T> {
    /// The receivers on which the implementation's `method` is defined.
    open spec fn gf_ok(&self) -> bool {
        true
    }

    /// The value `method` returns.
    spec fn gf_method_spec(&self) -> T;

    fn method(&self) -> (r: T)
        requires
            self.gf_ok(),
        ensures
            r == self.gf_method_spec(),
    ;
}

/// The trait a derive macro implements for `MacroStruct`: the expansion is
/// written out by hand as an ordinary impl, which is exactly how the
/// resolver models macro output.
pub trait MacroTrait {
    /// The receivers on which the implementation's methods are defined.
    open spec fn mt_ok(&self) -> bool {
        true
    }

    /// The value `method` returns.
    spec fn mt_method_spec(&self) -> u32;

    /// The value `another_method` returns.
    spec fn mt_another_method_spec(&self) -> u32;

    fn method(&self) -> (r: u32)
        requires
            self.mt_ok(),
        ensures
            r == self.mt_method_spec(),
    ;

    fn another_method(&self) -> (r: u32)
        requires
            self.mt_ok(),
        ensures
            r == self.mt_another_method_spec(),
    ;
}

/// A trait with defaulted result specifications: an impl that keeps the
/// default spec bodies answers both methods with zero, as `Thin` does, while
/// `Fat` overrides them. The static method needs `Self: Sized` so the trait
/// stays usable as a trait object.
pub trait DefaultTrait {
    /// The receivers on which the implementation's `default_method` is
    /// defined.
    open spec fn default_ok(&self) -> bool {
        true
    }

    /// The value `default_method` returns; zero unless the impl overrides
    /// it.
    open spec fn default_method_spec(&self) -> u32 {
        0
    }

    /// The value `default_method_no_self` returns; zero unless the impl
    /// overrides it.
    open spec fn default_method_no_self_spec() -> u32 where Self: Sized {
        0
    }

    fn default_method(&self) -> (r: u32)
        requires
            self.default_ok(),
        ensures
            r == self.default_method_spec(),
    ;

    fn default_method_no_self() -> (r: u32) where Self: Sized
        ensures
            r == Self::default_method_no_self_spec(),
    ;
}

} // verus!

//! String-valued trait declarations: the method-name carriers of the
//! lookup fixtures. `Baz` requires `Default` as a supertrait, the one
//! supertrait edge of the corpus. No type of the crate implements them; they
//! exist to populate scopes and candidate sets of the resolver's models.
use vstd::prelude::*;
use vstd::string::StringExecFns;

verus! {

/// A trait of two defaulted methods returning its own name.
pub trait Default {
    fn default_method(&self) -> String {
        String::from_str("Default")
    }

    fn default_method_no_self() -> String where Self: Sized {
        String::from_str("Default")
    }
}

/// A one-method trait.
pub trait Foo {
    fn method(&self) -> String;
}

/// A three-method trait sharing its method names with `Foo` and `Baz`.
pub trait Bar {
    fn method(&self) -> String;

    fn another_method(&self) -> String;

    fn yet_another_method(&self) -> String;
}

/// A trait with a supertrait: implementing it requires `Default` too.
pub trait Baz: Default {
    fn another_method(&self) -> String;
}

} // verus!

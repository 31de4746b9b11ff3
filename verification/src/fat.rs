//! `Fat`: the type with the richest method-lookup surface. It has inherent
//! methods sharing names with the trait methods it implements, at differing
//! receiver forms and visibilities, so unqualified calls exercise the whole
//! lookup order.
use vstd::prelude::*;

use crate::traits::BarTrait;
use crate::traits::BazTrait;
use crate::traits::DefaultTrait;
use crate::traits::FooTrait;

verus! {

/// A tuple struct around a counter. Its inherent `method` takes `&self`, its
/// inherent `another_method` takes `&mut self` (so the trait `&self` method
/// of `BarTrait` outranks it in lookup), and its inherent
/// `yet_another_method` is private (so external calls resolve to the trait
/// method of the same name).
pub struct Fat(pub u32);

impl Fat {
    pub fn method(&self) -> (r: u32)
        ensures
            r == self.0,
    {
        self.0
    }

    pub fn another_method(&mut self) -> (r: u32)
        requires
            old(self).0 < u32::MAX,
        ensures
            final(self).0 == old(self).0,
            r == old(self).0 + 1,
    {
        self.0 + 1
    }

    #[allow(dead_code)]
    fn yet_another_method(&self) -> (r: u32)
        requires
            self.0 + 2 <= u32::MAX,
        ensures
            r == self.0 + 2,
    {
        self.0 + 2
    }

    pub fn default_method_no_self() -> (r: u32)
        ensures
            r == 1,
    {
        1
    }
}

impl FooTrait for Fat {
    open spec fn foo_ok(&self) -> bool {
        self.0 + 10 <= u32::MAX
    }

    open spec fn foo_method_spec(&self) -> u32 {
        (self.0 + 10) as u32
    }

    fn method(&self) -> (r: u32) {
        self.0 + 10
    }
}

impl BarTrait for Fat {
    open spec fn bar_ok(&self) -> bool {
        self.0 + 102 <= u32::MAX
    }

    open spec fn bar_method_spec(&self) -> u32 {
        (self.0 + 100) as u32
    }

    open spec fn bar_another_method_spec(&self) -> u32 {
        (self.0 + 101) as u32
    }

    open spec fn bar_yet_another_method_spec(&self) -> u32 {
        (self.0 + 102) as u32
    }

    fn method(&self) -> (r: u32) {
        self.0 + 100
    }

    fn another_method(&self) -> (r: u32) {
        self.0 + 101
    }

    fn yet_another_method(&self) -> (r: u32) {
        self.0 + 102
    }
}

impl BazTrait for Fat {
    open spec fn baz_ok(&self) -> bool {
        self.0 + 1001 <= u32::MAX
    }

    open spec fn baz_another_method_spec(&self) -> u32 {
        (self.0 + 1001) as u32
    }

    fn another_method(&self) -> (r: u32) {
        self.0 + 1001
    }
}

impl DefaultTrait for Fat {
    open spec fn default_method_spec(&self) -> u32 {
        1
    }

    open spec fn default_method_no_self_spec() -> u32 {
        2
    }

    fn default_method(&self) -> (r: u32) {
        1
    }

    fn default_method_no_self() -> (r: u32) {
        2
    }
}

} // verus!

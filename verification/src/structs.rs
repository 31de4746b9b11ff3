//! Static-dispatch fixtures: two types whose inherent methods share names
//! but differ in path, signature or receiver, so a resolver must keep their
//! fully qualified identities apart.
use vstd::prelude::*;

verus! {

/// A unit type with one associated function and one instance method.
pub struct One;

impl One {
    pub fn method_1() -> (r: i32)
        ensures
            r == 1,
    {
        1
    }

    pub fn method_2(&mut self) -> (r: i32)
        ensures
            r == 2,
    {
        2
    }
}

/// A counter whose methods call further inherent methods, public and
/// private, of the same type.
pub struct Two(pub i32);

impl Two {
    pub fn new(num: i32) -> (r: Self)
        ensures
            r.0 == num,
    {
        Two(num)
    }

    pub fn method_1(&self) -> (r: i32)
        requires
            self.0 < i32::MAX,
        ensures
            r == self.0 + 1,
    {
        self.0 + 1
    }

    /// Increments through the private `add_one`, then reads through the
    /// public `method_1`: a call chain of inherent methods.
    pub fn method_2(&mut self) -> (r: i32)
        requires
            old(self).0 + 2 <= i32::MAX,
        ensures
            final(self).0 == old(self).0 + 1,
            r == old(self).0 + 2,
    {
        self.add_one();
        self.method_1()
    }

    fn add_one(&mut self)
        requires
            old(self).0 < i32::MAX,
        ensures
            final(self).0 == old(self).0 + 1,
    {
        self.0 = self.0 + 1;
    }
}

} // verus!

//! Greeting fixtures: plain static dispatch on inherent methods, with
//! `String` state and results pinned down over character sequences.
use vstd::prelude::*;
use vstd::string::StringExecFns;

verus! {

/// A unit type with one associated function and one instance method.
pub struct Hello;

impl Hello {
    pub fn hi() -> (r: String)
        ensures
            r@ == "Hi"@,
    {
        String::from_str("Hi")
    }

    pub fn hello(&self) -> (r: String)
        ensures
            r@ == "Hello"@,
    {
        String::from_str("Hello")
    }
}

/// A greeter holding the punctuation it appends to greetings.
pub struct HelloWorld(pub String);

impl HelloWorld {
    pub fn new(s: String) -> (r: Self)
        ensures
            r.0@ == s@,
    {
        HelloWorld(s)
    }

    pub fn update(&mut self, s: String)
        ensures
            final(self).0@ == s@,
    {
        self.0 = s;
    }

    pub fn greet(&self, hi: &String) -> (r: String)
        ensures
            r@ == hi@ + " "@ + "world"@ + " "@ + self.0@,
    {
        let mut r = hi.clone();
        r.append(" ");
        r.append("world");
        r.append(" ");
        r.append(self.0.as_str());
        r
    }

    /// Excites the stored punctuation through the private `format`, then
    /// greets through the public `greet`: an inherent call chain with a
    /// `&mut self` receiver.
    pub fn greet_excited(&mut self, hi: &String) -> (r: String)
        ensures
            final(self).0@ == old(self).0@ + "!"@,
            r@ == hi@ + " "@ + "world"@ + " "@ + old(self).0@ + "!"@,
    {
        let excited = self.format();
        self.0 = excited;
        self.greet(hi)
    }

    fn format(&self) -> (r: String)
        ensures
            r@ == self.0@ + "!"@,
    {
        let mut r = self.0.clone();
        r.append("!");
        r
    }
}

} // verus!

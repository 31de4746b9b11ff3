//! A call-graph resolution library together with the benchmark fixtures it
//! is modelled on.
//!
//! The heart of the crate is the call resolver: a pure function from a
//! program model (types, traits, impls, functions, call sites) to a
//! resolution report that classifies each call site by dispatch kind and
//! enumerates the set of target functions a sound call-graph analysis must
//! consider. The fixture modules hold small types, traits and functions that
//! exercise every dispatch form the resolver classifies: inherent and trait
//! static dispatch, method-lookup precedence, trait defaults, generic
//! monomorphization, dynamic dispatch through trait objects, indirect calls
//! through function values, and conditional compilation.
use vstd::prelude::*;

pub mod bounds;
pub mod conditionally_compiled;
pub mod config;
pub mod dynamic_dispatch;
pub mod fat;
pub mod function_pointers;
pub mod generics;
pub mod helloworld;
pub mod laws;
pub mod lookup;
pub mod macros;
pub mod model;
pub mod report;
pub mod resolve;
pub mod signatures;
pub mod string_traits;
pub mod structs;
pub mod subs;
pub mod target;
pub mod thin;
pub mod traits;
pub mod validate;

verus! {

} // verus!

//! Conditional-compilation fixtures. A feature flag guards two variants of
//! one function; here, as in the resolver's own model, the predicate is
//! data: the flag's value is an argument and the one function branches on
//! it, returning what the active variant would.
use vstd::prelude::*;

verus! {

/// The value `foo` returns under a flag value: what the enabled variant
/// computes when the feature is on, what the disabled variant computes when
/// it is off.
pub open spec fn spec_foo(foo_enabled: bool) -> u32 {
    if foo_enabled {
        1
    } else {
        2
    }
}

/// The variant-selecting function: exactly one of its two bodies is active
/// per configuration.
pub fn foo(foo_enabled: bool) -> (r: u32)
    ensures
        r == spec_foo(foo_enabled),
{
    if foo_enabled {
        base_one()
    } else {
        base_two()
    }
}

/// Calls `foo`, so its own result depends on the configuration the same way.
pub fn bar(foo_enabled: bool) -> (r: u32)
    ensures
        r == spec_foo(foo_enabled),
{
    foo(foo_enabled)
}

fn base_one() -> (r: u32)
    ensures
        r == 1,
{
    1
}

fn base_two() -> (r: u32)
    ensures
        r == 2,
{
    2
}

} // verus!

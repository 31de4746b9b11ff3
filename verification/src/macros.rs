//! Macro fixtures. A derive macro would generate the `MacroTrait` impl for
//! `MacroStruct`; the resolver treats macro expansion as a pure
//! transformation producing ordinary entities before resolution runs, and
//! accordingly the expansion stands here written out by hand.
use vstd::prelude::*;

use crate::traits::MacroTrait;

verus! {

/// The type whose `MacroTrait` impl stands for a derive expansion.
pub struct MacroStruct;

impl MacroTrait for MacroStruct {
    open spec fn mt_method_spec(&self) -> u32 {
        100
    }

    open spec fn mt_another_method_spec(&self) -> u32 {
        100
    }

    /// The generated `method` forwards to `another_method`, an inherent-style
    /// call inside the expansion.
    fn method(&self) -> (r: u32) {
        self.another_method()
    }

    fn another_method(&self) -> (r: u32) {
        100
    }
}

} // verus!

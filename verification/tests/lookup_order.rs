// Only BarTrait is in scope here: with BazTrait imported as well, the
// unqualified calls below would be ambiguous, as the resolver's own model
// predicts.
use callgraph::fat::Fat;
use callgraph::traits::BarTrait;

#[test]
fn trait_ref_method_outranks_inherent_mut_method_on_fat() {
    let mut fat = Fat(100);
    // Fat's inherent another_method takes &mut self; BarTrait's takes &self
    // and wins lookup
    assert_eq!(fat.another_method(), 201);
    // the inherent method stays reachable under associated-function syntax
    assert_eq!(Fat::another_method(&mut fat), 101);
}

#[test]
fn private_inherent_method_loses_to_trait_method() {
    let fat = Fat(100);
    // Fat's inherent yet_another_method is private to its module, so the
    // call resolves to BarTrait's
    assert_eq!(fat.yet_another_method(), 202);
}

use callgraph::config::Config;
use callgraph::config::FeatureFlag;
use callgraph::config::Mode;
use callgraph::lookup::lookup_order;
use callgraph::lookup::LookupStep;
use callgraph::lookup::MethodSource;
use callgraph::model::CallSite;
use callgraph::model::Callee;
use callgraph::model::FunctionDef;
use callgraph::model::Guard;
use callgraph::model::ImplDef;
use callgraph::model::Loc;
use callgraph::model::MethodDecl;
use callgraph::model::Program;
use callgraph::model::Receiver;
use callgraph::model::ReceiverClass;
use callgraph::model::RecvType;
use callgraph::model::TraitDef;
use callgraph::model::TraitMethodDecl;
use callgraph::model::TypeDef;
use callgraph::model::Visibility;
use callgraph::report::Report;
use callgraph::report::RunError;
use callgraph::resolve::resolve_site;
use callgraph::report::resolve_all;
use callgraph::target::DispatchKind;
use callgraph::target::Note;
use callgraph::target::Resolution;
use callgraph::target::SiteError;
use callgraph::target::SiteOutcome;
use callgraph::target::Target;

// interned method names
const METHOD: u64 = 1;
const ANOTHER_METHOD: u64 = 2;
const YET_ANOTHER_METHOD: u64 = 3;
const DEFAULT_METHOD_NO_SELF: u64 = 4;
// interned module paths
const LIB: u64 = 10;
const BENCH: u64 = 11;
// interned feature names
const FOO_FEATURE: u64 = 20;
// interned signature tokens
const SIG_OBJ_TO_U32: u64 = 30;
const SIG_UNMATCHED: u64 = 31;
// interned macro names
const FOO_MACRO: u64 = 40;

fn method(name: u64, receiver: Receiver, visibility: Visibility, sig: u64) -> MethodDecl {
    MethodDecl { name, receiver, visibility, sig }
}

fn trait_method(name: u64, receiver: Receiver, has_default: bool, sig: u64) -> TraitMethodDecl {
    TraitMethodDecl { name, receiver, has_default, sig }
}

fn site(callee: Callee, scope: Vec<usize>) -> CallSite {
    CallSite { callee, scope, expanded_from: None, loc: Loc { module: BENCH, line: 1 } }
}

/// The scenario shared by the method-lookup tests: type `Fat` (index 0) with
/// inherent `method(&self)`, `another_method(&mut self)` and a private
/// `yet_another_method(&self)`, implementing trait `Bar` (index 0) that
/// declares all three at `&self`.
fn fat_bar_program() -> Program {
    Program {
        types: vec![TypeDef {
            name: 100,
            module: LIB,
            methods: vec![
                method(METHOD, Receiver::SelfRef, Visibility::Public, SIG_UNMATCHED),
                method(ANOTHER_METHOD, Receiver::SelfMut, Visibility::Public, SIG_UNMATCHED),
                method(YET_ANOTHER_METHOD, Receiver::SelfRef, Visibility::Private, SIG_UNMATCHED),
            ],
        }],
        traits: vec![TraitDef {
            name: 200,
            supertraits: vec![],
            methods: vec![
                trait_method(METHOD, Receiver::SelfRef, false, SIG_UNMATCHED),
                trait_method(ANOTHER_METHOD, Receiver::SelfRef, false, SIG_UNMATCHED),
                trait_method(YET_ANOTHER_METHOD, Receiver::SelfRef, false, SIG_UNMATCHED),
            ],
        }],
        impls: vec![ImplDef {
            type_id: 0,
            trait_id: 0,
            provided: vec![METHOD, ANOTHER_METHOD, YET_ANOTHER_METHOD],
        }],
        functions: vec![],
        features: vec![],
    }
}

fn single_resolution(outcome: &SiteOutcome) -> &Resolution {
    match outcome {
        SiteOutcome::Resolved { resolutions } => {
            assert_eq!(resolutions.len(), 1);
            &resolutions[0]
        }
        SiteOutcome::Failed { error } => panic!("unexpected error {:?}", error),
    }
}

#[test]
fn inherent_method_outranks_trait_method() {
    let p = fat_bar_program();
    let mode = Mode::AllConfigs;
    // fat.method(): the inherent &self method wins
    let s = site(
        Callee::Method { recv: RecvType::Concrete { type_id: 0 }, method: METHOD, instance: true },
        vec![0],
    );
    let outcome = resolve_site(&p, &mode, &s);
    let r = single_resolution(&outcome);
    assert_eq!(r.dispatch, DispatchKind::InherentStatic);
    assert_eq!(r.candidates, vec![Target::InherentMethod { type_id: 0, method: METHOD }]);
}

#[test]
fn trait_ref_method_outranks_inherent_mut_method() {
    let p = fat_bar_program();
    let mode = Mode::AllConfigs;
    // fat.another_method(): the trait's &self method outranks the inherent
    // &mut self method
    let s = site(
        Callee::Method {
            recv: RecvType::Concrete { type_id: 0 },
            method: ANOTHER_METHOD,
            instance: true,
        },
        vec![0],
    );
    let outcome = resolve_site(&p, &mode, &s);
    let r = single_resolution(&outcome);
    assert_eq!(r.dispatch, DispatchKind::TraitStaticMethodLookup);
    assert_eq!(r.candidates, vec![Target::ImplMethod { impl_id: 0, method: ANOTHER_METHOD }]);
}

#[test]
fn private_inherent_method_invisible_outside_module() {
    let p = fat_bar_program();
    let mode = Mode::AllConfigs;
    // fat.yet_another_method() from another module: the private inherent
    // method is invisible, the trait method wins
    let s = site(
        Callee::Method {
            recv: RecvType::Concrete { type_id: 0 },
            method: YET_ANOTHER_METHOD,
            instance: true,
        },
        vec![0],
    );
    let outcome = resolve_site(&p, &mode, &s);
    let r = single_resolution(&outcome);
    assert_eq!(r.dispatch, DispatchKind::TraitStaticMethodLookup);
    // the same call from the defining module reaches the private method
    let mut internal = site(
        Callee::Method {
            recv: RecvType::Concrete { type_id: 0 },
            method: YET_ANOTHER_METHOD,
            instance: true,
        },
        vec![0],
    );
    internal.loc = Loc { module: LIB, line: 2 };
    let outcome = resolve_site(&p, &mode, &internal);
    let r = single_resolution(&outcome);
    assert_eq!(r.dispatch, DispatchKind::InherentStatic);
}

#[test]
fn qualified_call_resolves_to_named_trait() {
    let p = fat_bar_program();
    let mode = Mode::AllConfigs;
    // <Fat as Bar>::method(&fat)
    let s = site(
        Callee::Qualified {
            trait_id: 0,
            method: METHOD,
            recv: RecvType::Concrete { type_id: 0 },
        },
        vec![],
    );
    let outcome = resolve_site(&p, &mode, &s);
    let r = single_resolution(&outcome);
    assert_eq!(r.dispatch, DispatchKind::TraitStaticQualified);
    assert_eq!(r.candidates, vec![Target::ImplMethod { impl_id: 0, method: METHOD }]);
}

/// Trait `DefaultTrait` (index 0) declares a defaulted associated function;
/// type `Thin` (index 0) implements the trait without overriding it.
fn thin_default_program() -> Program {
    Program {
        types: vec![TypeDef { name: 101, module: LIB, methods: vec![] }],
        traits: vec![TraitDef {
            name: 201,
            supertraits: vec![],
            methods: vec![trait_method(DEFAULT_METHOD_NO_SELF, Receiver::Stat, true, SIG_UNMATCHED)],
        }],
        impls: vec![ImplDef { type_id: 0, trait_id: 0, provided: vec![] }],
        functions: vec![],
        features: vec![],
    }
}

#[test]
fn unoverridden_default_resolves_to_trait_body() {
    let p = thin_default_program();
    let mode = Mode::AllConfigs;
    // Thin::default_method_no_self(): associated-function syntax, the trait
    // in scope; the target is the trait's default body, no impl
    let s = site(
        Callee::Method {
            recv: RecvType::Concrete { type_id: 0 },
            method: DEFAULT_METHOD_NO_SELF,
            instance: false,
        },
        vec![0],
    );
    let outcome = resolve_site(&p, &mode, &s);
    let r = single_resolution(&outcome);
    assert_eq!(r.dispatch, DispatchKind::TraitDefaultStatic);
    assert_eq!(
        r.candidates,
        vec![Target::TraitDefault { trait_id: 0, method: DEFAULT_METHOD_NO_SELF }]
    );
}

/// Trait `FooTrait` (index 0) with implementers `Fat` (type 0, impl 0,
/// providing the method) and `Thin` (type 1, impl 1, providing the method).
fn two_implementer_program() -> Program {
    Program {
        types: vec![
            TypeDef { name: 100, module: LIB, methods: vec![] },
            TypeDef { name: 101, module: LIB, methods: vec![] },
        ],
        traits: vec![TraitDef {
            name: 200,
            supertraits: vec![],
            methods: vec![trait_method(METHOD, Receiver::SelfRef, false, SIG_UNMATCHED)],
        }],
        impls: vec![
            ImplDef { type_id: 0, trait_id: 0, provided: vec![METHOD] },
            ImplDef { type_id: 1, trait_id: 0, provided: vec![METHOD] },
        ],
        functions: vec![],
        features: vec![],
    }
}

#[test]
fn dynamic_dispatch_covers_all_implementers() {
    let p = two_implementer_program();
    let mode = Mode::AllConfigs;
    let s = site(
        Callee::Method {
            recv: RecvType::TraitObject { trait_id: 0 },
            method: METHOD,
            instance: true,
        },
        vec![],
    );
    let outcome = resolve_site(&p, &mode, &s);
    let r = single_resolution(&outcome);
    assert_eq!(r.dispatch, DispatchKind::DynamicTraitObject);
    // one candidate per implementer: order-independent set equality, and the
    // count equals the number of implementers
    assert_eq!(r.candidates.len(), 2);
    assert!(r.candidates.contains(&Target::ImplMethod { impl_id: 0, method: METHOD }));
    assert!(r.candidates.contains(&Target::ImplMethod { impl_id: 1, method: METHOD }));
}

#[test]
fn dynamic_dispatch_without_implementers_is_an_error() {
    let mut p = two_implementer_program();
    p.impls.clear();
    let mode = Mode::AllConfigs;
    let s = site(
        Callee::Method {
            recv: RecvType::TraitObject { trait_id: 0 },
            method: METHOD,
            instance: true,
        },
        vec![],
    );
    let outcome = resolve_site(&p, &mode, &s);
    assert_eq!(outcome, SiteOutcome::Failed { error: SiteError::NoImplementationFound });
}

#[test]
fn dynamic_dispatch_through_supertrait_method() {
    // trait 0 declares the method; trait 1 has trait 0 as supertrait and
    // declares nothing; type 0 implements both, providing the method in the
    // impl of trait 0 (impl index 1)
    let p = Program {
        types: vec![TypeDef { name: 100, module: LIB, methods: vec![] }],
        traits: vec![
            TraitDef {
                name: 200,
                supertraits: vec![],
                methods: vec![trait_method(METHOD, Receiver::SelfRef, false, SIG_UNMATCHED)],
            },
            TraitDef { name: 201, supertraits: vec![0], methods: vec![] },
        ],
        impls: vec![
            ImplDef { type_id: 0, trait_id: 1, provided: vec![] },
            ImplDef { type_id: 0, trait_id: 0, provided: vec![METHOD] },
        ],
        functions: vec![],
        features: vec![],
    };
    let mode = Mode::AllConfigs;
    let s = site(
        Callee::Method {
            recv: RecvType::TraitObject { trait_id: 1 },
            method: METHOD,
            instance: true,
        },
        vec![],
    );
    let outcome = resolve_site(&p, &mode, &s);
    let r = single_resolution(&outcome);
    assert_eq!(r.dispatch, DispatchKind::DynamicTraitObject);
    // one candidate, for the one implementer of trait 1, resolved through
    // its impl of the declaring supertrait
    assert_eq!(r.candidates, vec![Target::ImplMethod { impl_id: 1, method: METHOD }]);
}

/// Types `One` (0) and `Two` (1) both implement the bound (trait 0, impls 0
/// and 1).
fn generic_bound_program() -> Program {
    Program {
        types: vec![
            TypeDef { name: 100, module: LIB, methods: vec![] },
            TypeDef { name: 101, module: LIB, methods: vec![] },
        ],
        traits: vec![TraitDef {
            name: 200,
            supertraits: vec![],
            methods: vec![trait_method(METHOD, Receiver::SelfRef, false, SIG_UNMATCHED)],
        }],
        impls: vec![
            ImplDef { type_id: 0, trait_id: 0, provided: vec![METHOD] },
            ImplDef { type_id: 1, trait_id: 0, provided: vec![METHOD] },
        ],
        functions: vec![],
        features: vec![],
    }
}

#[test]
fn distinct_instantiations_never_merge() {
    let p = generic_bound_program();
    let mode = Mode::AllConfigs;
    let s = site(
        Callee::GenericParam { bound: 0, method: METHOD, instantiations: vec![0, 1] },
        vec![],
    );
    let outcome = resolve_site(&p, &mode, &s);
    match outcome {
        SiteOutcome::Resolved { resolutions } => {
            // two distinct single-element resolutions, not one two-element one
            assert_eq!(resolutions.len(), 2);
            assert_eq!(resolutions[0].dispatch, DispatchKind::GenericMonomorphized);
            assert_eq!(resolutions[1].dispatch, DispatchKind::GenericMonomorphized);
            assert_eq!(
                resolutions[0].candidates,
                vec![Target::ImplMethod { impl_id: 0, method: METHOD }]
            );
            assert_eq!(
                resolutions[1].candidates,
                vec![Target::ImplMethod { impl_id: 1, method: METHOD }]
            );
        }
        SiteOutcome::Failed { error } => panic!("unexpected error {:?}", error),
    }
}

#[test]
fn ambiguity_needs_qualified_syntax() {
    // two in-scope traits provide the same method name at the same
    // receiver-kind step; the unqualified call is ambiguous, the qualified
    // one resolves
    let p = Program {
        types: vec![TypeDef { name: 100, module: LIB, methods: vec![] }],
        traits: vec![
            TraitDef {
                name: 200,
                supertraits: vec![],
                methods: vec![trait_method(METHOD, Receiver::SelfRef, false, SIG_UNMATCHED)],
            },
            TraitDef {
                name: 201,
                supertraits: vec![],
                methods: vec![trait_method(METHOD, Receiver::SelfRef, false, SIG_UNMATCHED)],
            },
        ],
        impls: vec![
            ImplDef { type_id: 0, trait_id: 0, provided: vec![METHOD] },
            ImplDef { type_id: 0, trait_id: 1, provided: vec![METHOD] },
        ],
        functions: vec![],
        features: vec![],
    };
    let mode = Mode::AllConfigs;
    let unqualified = site(
        Callee::Method { recv: RecvType::Concrete { type_id: 0 }, method: METHOD, instance: true },
        vec![0, 1],
    );
    let outcome = resolve_site(&p, &mode, &unqualified);
    assert_eq!(outcome, SiteOutcome::Failed { error: SiteError::AmbiguousMethodLookup });
    assert!(outcome.is_ambiguous());
    let qualified = site(
        Callee::Qualified { trait_id: 0, method: METHOD, recv: RecvType::Concrete { type_id: 0 } },
        vec![0, 1],
    );
    let outcome = resolve_site(&p, &mode, &qualified);
    let r = single_resolution(&outcome);
    assert_eq!(r.candidates, vec![Target::ImplMethod { impl_id: 0, method: METHOD }]);
}

/// A program of one conditionally compiled function: variant 0 under the
/// feature enabled, variant 1 under it disabled.
fn conditional_program() -> Program {
    Program {
        types: vec![],
        traits: vec![],
        impls: vec![],
        functions: vec![FunctionDef {
            name: 300,
            sig: SIG_UNMATCHED,
            variants: vec![
                Guard::Feature { feature: 0, enabled: true },
                Guard::Feature { feature: 0, enabled: false },
            ],
        }],
        features: vec![FOO_FEATURE],
    }
}

#[test]
fn single_configuration_collapses_to_active_variant() {
    let p = conditional_program();
    let s = site(Callee::Free { function: 0 }, vec![]);
    let enabled = Mode::Single {
        config: Config { flags: vec![FeatureFlag { name: FOO_FEATURE, value: true }] },
    };
    let outcome = resolve_site(&p, &enabled, &s);
    let r = single_resolution(&outcome);
    assert_eq!(r.dispatch, DispatchKind::ConditionallyCompiled);
    assert_eq!(r.candidates, vec![Target::FreeVariant { function: 0, variant: 0 }]);
    let disabled = Mode::Single {
        config: Config { flags: vec![FeatureFlag { name: FOO_FEATURE, value: false }] },
    };
    let outcome = resolve_site(&p, &disabled, &s);
    let r = single_resolution(&outcome);
    assert_eq!(r.candidates, vec![Target::FreeVariant { function: 0, variant: 1 }]);
    // a feature absent from the configuration counts as disabled
    let empty = Mode::Single { config: Config { flags: vec![] } };
    let outcome = resolve_site(&p, &empty, &s);
    let r = single_resolution(&outcome);
    assert_eq!(r.candidates, vec![Target::FreeVariant { function: 0, variant: 1 }]);
}

#[test]
fn all_configurations_report_both_variants_with_guards() {
    let p = conditional_program();
    let s = site(Callee::Free { function: 0 }, vec![]);
    let outcome = resolve_site(&p, &Mode::AllConfigs, &s);
    let r = single_resolution(&outcome);
    assert_eq!(r.dispatch, DispatchKind::ConditionallyCompiled);
    assert_eq!(
        r.candidates,
        vec![
            Target::FreeVariant { function: 0, variant: 0 },
            Target::FreeVariant { function: 0, variant: 1 },
        ]
    );
    // each reported variant carries its guard predicate in the model
    for target in &r.candidates {
        match target {
            Target::FreeVariant { function, variant } => {
                let guard = p.functions[*function].variants[*variant];
                assert_eq!(
                    guard,
                    Guard::Feature { feature: 0, enabled: *variant == 0 }
                );
            }
            other => panic!("unexpected target {:?}", other),
        }
    }
}

#[test]
fn unknown_feature_rejects_the_whole_run() {
    let p = conditional_program();
    let sites = vec![site(Callee::Free { function: 0 }, vec![])];
    let mode = Mode::Single {
        config: Config { flags: vec![FeatureFlag { name: 999, value: true }] },
    };
    let r = resolve_all(&p, &mode, &sites);
    assert_eq!(r.err(), Some(RunError::UnknownFeature { feature: 999 }));
}

#[test]
fn unconditional_free_call_is_inherent_static() {
    let p = Program {
        types: vec![],
        traits: vec![],
        impls: vec![],
        functions: vec![FunctionDef {
            name: 300,
            sig: SIG_UNMATCHED,
            variants: vec![Guard::Always],
        }],
        features: vec![],
    };
    let s = site(Callee::Free { function: 0 }, vec![]);
    let outcome = resolve_site(&p, &Mode::AllConfigs, &s);
    let r = single_resolution(&outcome);
    assert_eq!(r.dispatch, DispatchKind::InherentStatic);
    assert_eq!(r.candidates, vec![Target::FreeVariant { function: 0, variant: 0 }]);
}

/// Two free functions of the pointed-at signature, like the two helpers of
/// the pointer fixtures: only one is ever passed around, yet both stay in
/// the candidate set of a structural match.
fn pointer_program() -> Program {
    Program {
        types: vec![],
        traits: vec![],
        impls: vec![],
        functions: vec![
            FunctionDef { name: 301, sig: SIG_OBJ_TO_U32, variants: vec![Guard::Always] },
            FunctionDef { name: 302, sig: SIG_OBJ_TO_U32, variants: vec![Guard::Always] },
        ],
        features: vec![],
    }
}

#[test]
fn pointer_call_matches_all_compatible_signatures() {
    let p = pointer_program();
    let s = site(Callee::Pointer { sig: SIG_OBJ_TO_U32 }, vec![]);
    let outcome = resolve_site(&p, &Mode::AllConfigs, &s);
    let r = single_resolution(&outcome);
    assert_eq!(r.dispatch, DispatchKind::FunctionPointer);
    assert_eq!(
        r.candidates,
        vec![
            Target::FreeVariant { function: 0, variant: 0 },
            Target::FreeVariant { function: 1, variant: 0 },
        ]
    );
    assert!(r.notes.is_empty());
    let s = site(Callee::FnObject { sig: SIG_OBJ_TO_U32 }, vec![]);
    let outcome = resolve_site(&p, &Mode::AllConfigs, &s);
    assert_eq!(single_resolution(&outcome).dispatch, DispatchKind::FnTraitObject);
}

#[test]
fn unresolved_pointer_is_a_warning_not_an_error() {
    let p = pointer_program();
    let sites = vec![site(Callee::Pointer { sig: SIG_UNMATCHED }, vec![])];
    let report: Report = resolve_all(&p, &Mode::AllConfigs, &sites).unwrap();
    assert_eq!(report.records.len(), 1);
    let r = single_resolution(&report.records[0].outcome);
    assert!(r.candidates.is_empty());
    assert_eq!(r.notes, vec![Note::PointerUnresolved]);
    // flagged, never silent — but no error record
    assert!(!report.has_errors());
}

#[test]
fn macro_expansion_keeps_provenance() {
    let p = fat_bar_program();
    let mut s = site(
        Callee::Qualified { trait_id: 0, method: METHOD, recv: RecvType::Concrete { type_id: 0 } },
        vec![],
    );
    s.expanded_from = Some(FOO_MACRO);
    let outcome = resolve_site(&p, &Mode::AllConfigs, &s);
    let r = single_resolution(&outcome);
    assert_eq!(r.dispatch, DispatchKind::MacroExpanded);
    assert_eq!(r.candidates, vec![Target::ImplMethod { impl_id: 0, method: METHOD }]);
    assert_eq!(
        r.notes,
        vec![Note::Expanded { macro_name: FOO_MACRO, underlying: DispatchKind::TraitStaticQualified }]
    );
}

#[test]
fn qualified_call_reaches_default_body() {
    let p = thin_default_program();
    // <Thin as DefaultTrait>::default_method_no_self(): the impl relies on
    // the default, so even the qualified call resolves to the trait's body
    let s = site(
        Callee::Qualified {
            trait_id: 0,
            method: DEFAULT_METHOD_NO_SELF,
            recv: RecvType::Concrete { type_id: 0 },
        },
        vec![],
    );
    let outcome = resolve_site(&p, &Mode::AllConfigs, &s);
    let r = single_resolution(&outcome);
    assert_eq!(r.dispatch, DispatchKind::TraitDefaultStatic);
    assert_eq!(
        r.candidates,
        vec![Target::TraitDefault { trait_id: 0, method: DEFAULT_METHOD_NO_SELF }]
    );
}

#[test]
fn lookup_order_is_data() {
    // instance calls: by-reference before by-value, inherent before trait at
    // each class
    assert_eq!(
        lookup_order(true),
        vec![
            LookupStep { source: MethodSource::Inherent, receiver: ReceiverClass::ByRef },
            LookupStep { source: MethodSource::InScopeTrait, receiver: ReceiverClass::ByRef },
            LookupStep { source: MethodSource::Inherent, receiver: ReceiverClass::ByMutOrOwn },
            LookupStep { source: MethodSource::InScopeTrait, receiver: ReceiverClass::ByMutOrOwn },
        ]
    );
    // associated-function calls search only the static class
    assert_eq!(
        lookup_order(false),
        vec![
            LookupStep { source: MethodSource::Inherent, receiver: ReceiverClass::Stat },
            LookupStep { source: MethodSource::InScopeTrait, receiver: ReceiverClass::Stat },
        ]
    );
}

#[test]
fn resolution_is_idempotent() {
    let p = fat_bar_program();
    let mode = Mode::AllConfigs;
    let sites = vec![
        site(
            Callee::Method {
                recv: RecvType::Concrete { type_id: 0 },
                method: METHOD,
                instance: true,
            },
            vec![0],
        ),
        site(
            Callee::Qualified {
                trait_id: 0,
                method: METHOD,
                recv: RecvType::Concrete { type_id: 0 },
            },
            vec![0],
        ),
    ];
    let first = resolve_all(&p, &mode, &sites).unwrap();
    let second = resolve_all(&p, &mode, &sites).unwrap();
    assert_eq!(first, second);
    // the precise dispatch kinds carry exactly one candidate
    for record in &first.records {
        let r = single_resolution(&record.outcome);
        assert_eq!(r.candidates.len(), 1);
    }
    assert!(!first.has_errors());
}

#[test]
fn report_keeps_source_locations_and_errors() {
    let p = two_implementer_program();
    let mut bad = site(
        Callee::Method {
            recv: RecvType::TraitObject { trait_id: 0 },
            method: ANOTHER_METHOD,
            instance: true,
        },
        vec![],
    );
    bad.loc = Loc { module: BENCH, line: 77 };
    let good = site(
        Callee::Method {
            recv: RecvType::TraitObject { trait_id: 0 },
            method: METHOD,
            instance: true,
        },
        vec![],
    );
    let sites = vec![bad, good];
    let report = resolve_all(&p, &Mode::AllConfigs, &sites).unwrap();
    assert_eq!(report.records.len(), 2);
    // the method no trait of the hierarchy declares fails its site only
    assert_eq!(
        report.records[0].outcome,
        SiteOutcome::Failed { error: SiteError::NoImplementationFound }
    );
    assert_eq!(report.records[0].loc, Loc { module: BENCH, line: 77 });
    assert!(report.records[1].outcome.is_resolved());
    assert!(report.has_errors());
}

use callgraph::model::CallSite;
use callgraph::model::Callee;
use callgraph::model::FunctionDef;
use callgraph::model::Guard;
use callgraph::model::ImplDef;
use callgraph::model::Loc;
use callgraph::model::MethodDecl;
use callgraph::model::Program;
use callgraph::model::Receiver;
use callgraph::model::RecvType;
use callgraph::model::TraitDef;
use callgraph::model::TraitMethodDecl;
use callgraph::model::TypeDef;
use callgraph::model::Visibility;
use callgraph::validate::validate_program;
use callgraph::validate::validate_site;

const METHOD: u64 = 1;
const OTHER: u64 = 2;
const LIB: u64 = 10;

fn valid_program() -> Program {
    Program {
        types: vec![TypeDef {
            name: 100,
            module: LIB,
            methods: vec![
                MethodDecl {
                    name: METHOD,
                    receiver: Receiver::SelfRef,
                    visibility: Visibility::Public,
                    sig: 0,
                },
                // same name at another receiver class is fine
                MethodDecl {
                    name: METHOD,
                    receiver: Receiver::SelfMut,
                    visibility: Visibility::Public,
                    sig: 0,
                },
            ],
        }],
        traits: vec![
            TraitDef {
                name: 200,
                supertraits: vec![],
                methods: vec![TraitMethodDecl {
                    name: METHOD,
                    receiver: Receiver::SelfRef,
                    has_default: false,
                    sig: 0,
                }],
            },
            TraitDef {
                name: 201,
                supertraits: vec![0],
                methods: vec![TraitMethodDecl {
                    name: OTHER,
                    receiver: Receiver::SelfRef,
                    has_default: true,
                    sig: 0,
                }],
            },
        ],
        impls: vec![
            ImplDef { type_id: 0, trait_id: 0, provided: vec![METHOD] },
            ImplDef { type_id: 0, trait_id: 1, provided: vec![] },
        ],
        functions: vec![
            FunctionDef { name: 300, sig: 0, variants: vec![Guard::Always] },
            FunctionDef {
                name: 301,
                sig: 0,
                variants: vec![
                    Guard::Feature { feature: 0, enabled: true },
                    Guard::Feature { feature: 0, enabled: false },
                ],
            },
        ],
        features: vec![400],
    }
}

#[test]
fn valid_model_passes() {
    assert!(validate_program(&valid_program()));
}

#[test]
fn duplicate_inherent_method_rejected() {
    let mut p = valid_program();
    p.types[0].methods[1].receiver = Receiver::SelfRef;
    assert!(!validate_program(&p));
}

#[test]
fn upward_supertrait_rejected() {
    let mut p = valid_program();
    p.traits[0].supertraits = vec![1];
    assert!(!validate_program(&p));
}

#[test]
fn missing_required_method_rejected() {
    let mut p = valid_program();
    p.impls[0].provided = vec![];
    assert!(!validate_program(&p));
}

#[test]
fn undeclared_provided_method_rejected() {
    let mut p = valid_program();
    p.impls[0].provided = vec![METHOD, OTHER];
    assert!(!validate_program(&p));
}

#[test]
fn overlapping_impls_rejected() {
    let mut p = valid_program();
    p.impls.push(ImplDef { type_id: 0, trait_id: 0, provided: vec![METHOD] });
    assert!(!validate_program(&p));
}

#[test]
fn missing_supertrait_impl_rejected() {
    let mut p = valid_program();
    p.impls.remove(0);
    assert!(!validate_program(&p));
}

#[test]
fn one_sided_variant_guards_rejected() {
    let mut p = valid_program();
    p.functions[1].variants = vec![
        Guard::Feature { feature: 0, enabled: true },
        Guard::Feature { feature: 0, enabled: true },
    ];
    assert!(!validate_program(&p));
}

#[test]
fn undeclared_guard_feature_rejected() {
    let mut p = valid_program();
    p.functions[1].variants = vec![
        Guard::Feature { feature: 7, enabled: true },
        Guard::Feature { feature: 7, enabled: false },
    ];
    assert!(!validate_program(&p));
}

#[test]
fn duplicate_feature_names_rejected() {
    let mut p = valid_program();
    p.features.push(400);
    assert!(!validate_program(&p));
}

fn site(callee: Callee, scope: Vec<usize>) -> CallSite {
    CallSite { callee, scope, expanded_from: None, loc: Loc { module: LIB, line: 1 } }
}

#[test]
fn site_validation() {
    let p = valid_program();
    let ok = site(
        Callee::Method { recv: RecvType::Concrete { type_id: 0 }, method: METHOD, instance: true },
        vec![0, 1],
    );
    assert!(validate_site(&p, &ok));
    // a scope entry out of range
    assert!(!validate_site(
        &p,
        &site(
            Callee::Method {
                recv: RecvType::Concrete { type_id: 0 },
                method: METHOD,
                instance: true,
            },
            vec![9],
        ),
    ));
    // a qualified call naming a method the trait does not declare
    assert!(!validate_site(
        &p,
        &site(
            Callee::Qualified {
                trait_id: 0,
                method: OTHER,
                recv: RecvType::Concrete { type_id: 0 },
            },
            vec![],
        ),
    ));
    // a generic call with a duplicated instantiation
    assert!(!validate_site(
        &p,
        &site(
            Callee::GenericParam { bound: 0, method: METHOD, instantiations: vec![0, 0] },
            vec![],
        ),
    ));
    // a generic call with an instantiation out of range
    assert!(!validate_site(
        &p,
        &site(
            Callee::GenericParam { bound: 0, method: METHOD, instantiations: vec![3] },
            vec![],
        ),
    ));
    // a free call out of range
    assert!(!validate_site(&p, &site(Callee::Free { function: 5 }, vec![])));
    // indirect calls carry only a signature token and are always well formed
    assert!(validate_site(&p, &site(Callee::Pointer { sig: 0 }, vec![])));
}

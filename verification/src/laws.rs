//! The laws the resolver obeys, stated over the specification functions that
//! the executable functions are proved equal to: precise dispatch kinds have
//! exactly one candidate and resolution is deterministic; dynamic dispatch
//! covers exactly the implementers of the trait; distinct concrete
//! instantiations of a generic call never merge; qualified syntax never
//! trips over method-lookup ambiguity; and a conditionally compiled call
//! collapses to the one active variant under a configuration while
//! configuration-agnostic mode reports every variant.
use vstd::prelude::*;

use crate::config::Mode;
use crate::config::lemma_active_exists;
use crate::config::spec_first_active;
use crate::config::spec_guard_holds;
use crate::lookup::LookupHit;
use crate::lookup::LookupResult;
use crate::lookup::lemma_find_impl_some;
use crate::lookup::spec_find_impl;
use crate::lookup::spec_find_inherent;
use crate::lookup::spec_first_match;
use crate::lookup::spec_lookup;
use crate::lookup::spec_lookup_from;
use crate::lookup::spec_match_count;
use crate::lookup::spec_provides;
use crate::model::CallSite;
use crate::model::Callee;
use crate::model::Guard;
use crate::model::Program;
use crate::model::ReceiverClass;
use crate::model::RecvType;
use crate::resolve::spec_find_declaring;
use crate::resolve::spec_free_outcome;
use crate::resolve::spec_generic_list;
use crate::resolve::spec_generic_outcome;
use crate::resolve::spec_instance_target;
use crate::resolve::spec_object_candidates;
use crate::resolve::spec_object_outcome;
use crate::resolve::spec_object_target;
use crate::resolve::spec_resolve_callee;
use crate::resolve::spec_resolve_site;
use crate::resolve::one_outcome;
use crate::signatures::spec_variant_targets;
use crate::target::DispatchKind;
use crate::target::SiteError;
use crate::target::SiteOutcomeView;
use crate::target::Target;

verus! {

/// Resolution is a pure function of the model, the mode and the site: any
/// two results meeting the resolution contract are the same record,
/// byte for byte, so repeated resolution is idempotent.
pub proof fn lemma_resolution_deterministic(
    p: Program,
    mode: Mode,
    s: CallSite,
    r1: SiteOutcomeView,
    r2: SiteOutcomeView,
)
    requires
        r1 == spec_resolve_site(p, mode, s),
        r2 == spec_resolve_site(p, mode, s),
    ensures
        r1 == r2,
{
}

/// The shape of the per-instantiation list of a generic call: one resolution
/// per instantiation, each `GenericMonomorphized` with exactly the one
/// target of its concrete type.
pub proof fn lemma_generic_list_shape(p: Program, t: usize, m: u64, insts: Seq<usize>, upto: int)
    requires
        0 <= upto <= insts.len(),
        spec_generic_list(p, t, m, insts, upto) is Some,
    ensures
        ({
            let rs = spec_generic_list(p, t, m, insts, upto)->Some_0;
            &&& rs.len() == upto
            &&& forall|i: int|
                0 <= i < upto ==> {
                    &&& (#[trigger] rs[i]).dispatch == DispatchKind::GenericMonomorphized
                    &&& rs[i].candidates.len() == 1
                    &&& spec_instance_target(p, t, m, insts[i]) is Some
                    &&& rs[i].candidates[0] == spec_instance_target(p, t, m, insts[i])->Some_0
                }
        }),
    decreases upto,
{
    if upto > 0 {
        lemma_generic_list_shape(p, t, m, insts, upto - 1);
    }
}

/// A target resolved for a concrete instantiation through an impl names the
/// impl of exactly that type: the impl index is in range and binds the
/// instantiation's type.
pub proof fn lemma_instance_target_impl(p: Program, t: usize, m: u64, ty: usize, k: usize, m2: u64)
    requires
        p.impls@.len() <= usize::MAX,
        spec_instance_target(p, t, m, ty) == Some(Target::ImplMethod { impl_id: k, method: m2 }),
    ensures
        k < p.impls@.len(),
        p.impls@[k as int].type_id == ty,
        m2 == m,
{
    lemma_find_impl_some(p.impls@, 0, ty, t);
}

/// Distinct concrete instantiations of a call on a bound generic parameter
/// never merge: the outcome holds one single-candidate resolution per
/// instantiation, and two instantiations of different types that both
/// resolve to an impl body resolve to different targets.
pub proof fn lemma_generic_no_merge(p: Program, t: usize, m: u64, insts: Seq<usize>)
    requires
        p.wf(),
        spec_generic_outcome(p, t, m, insts) is Resolved,
    ensures
        ({
            let rs = spec_generic_outcome(p, t, m, insts)->Resolved_resolutions;
            &&& rs.len() == insts.len()
            &&& forall|i: int|
                0 <= i < rs.len() ==> (#[trigger] rs[i]).dispatch
                    == DispatchKind::GenericMonomorphized && rs[i].candidates.len() == 1
            &&& forall|i: int, j: int|
                0 <= i < rs.len() && 0 <= j < rs.len() && insts[i] != insts[j]
                    && (#[trigger] rs[i]).candidates[0] is ImplMethod
                    && (#[trigger] rs[j]).candidates[0] is ImplMethod ==> rs[i].candidates[0]
                    != rs[j].candidates[0]
        }),
{
    lemma_generic_list_shape(p, t, m, insts, insts.len() as int);
    let rs = spec_generic_outcome(p, t, m, insts)->Resolved_resolutions;
    assert forall|i: int, j: int|
        0 <= i < rs.len() && 0 <= j < rs.len() && insts[i] != insts[j]
            && (#[trigger] rs[i]).candidates[0] is ImplMethod
            && (#[trigger] rs[j]).candidates[0] is ImplMethod implies rs[i].candidates[0]
        != rs[j].candidates[0] by {
        let ti = rs[i].candidates[0];
        let tj = rs[j].candidates[0];
        lemma_instance_target_impl(p, t, m, insts[i], ti->ImplMethod_impl_id, ti->ImplMethod_method);
        lemma_instance_target_impl(p, t, m, insts[j], tj->ImplMethod_impl_id, tj->ImplMethod_method);
    }
}

/// The number of impls of trait `t` among the first `upto` impls.
pub open spec fn spec_impl_count(p: Program, t: usize, upto: int) -> nat
    decreases upto,
{
    if upto <= 0 {
        0
    } else {
        spec_impl_count(p, t, upto - 1) + (if p.impls@[upto - 1].trait_id == t {
            1 as nat
        } else {
            0 as nat
        })
    }
}

/// Dynamic dispatch is exactly class-hierarchy analysis: the candidate list
/// for a trait object of trait `t` has one target per impl of `t` — so a
/// trait with N implementers yields exactly N candidates — and the targets
/// are, as a set, exactly the per-implementer resolutions of the method.
pub proof fn lemma_object_candidates_cover(p: Program, t: usize, decl: usize, m: u64, upto: int)
    requires
        0 <= upto <= p.impls@.len(),
    ensures
        ({
            let cands = spec_object_candidates(p, t, decl, m, upto);
            &&& cands.len() == spec_impl_count(p, t, upto)
            &&& forall|k: int|
                0 <= k < upto && (#[trigger] p.impls@[k]).trait_id == t ==> exists|j: int|
                    0 <= j < cands.len() && cands[j] == spec_object_target(
                        p,
                        p.impls@[k].type_id,
                        decl,
                        m,
                    )
            &&& forall|j: int|
                0 <= j < cands.len() ==> exists|k: int|
                    0 <= k < upto && p.impls@[k].trait_id == t && #[trigger] cands[j]
                        == spec_object_target(p, p.impls@[k].type_id, decl, m)
        }),
    decreases upto,
{
    if upto > 0 {
        lemma_object_candidates_cover(p, t, decl, m, upto - 1);
        let prev = spec_object_candidates(p, t, decl, m, upto - 1);
        let cands = spec_object_candidates(p, t, decl, m, upto);
        assert forall|k: int|
            0 <= k < upto && (#[trigger] p.impls@[k]).trait_id == t implies exists|j: int|
            0 <= j < cands.len() && cands[j] == spec_object_target(
                p,
                p.impls@[k].type_id,
                decl,
                m,
            ) by {
            if k < upto - 1 {
                let j = choose|j: int|
                    0 <= j < prev.len() && prev[j] == spec_object_target(
                        p,
                        p.impls@[k].type_id,
                        decl,
                        m,
                    );
                assert(cands[j] == spec_object_target(p, p.impls@[k].type_id, decl, m));
            } else {
                assert(cands[cands.len() - 1] == spec_object_target(
                    p,
                    p.impls@[k].type_id,
                    decl,
                    m,
                ));
            }
        }
    }
}

/// The candidate count of a dynamic-dispatch outcome equals the number of
/// implementers of the trait: the record form of the covering law above.
pub proof fn lemma_dynamic_candidate_count(p: Program, t: usize, m: u64)
    requires
        spec_find_declaring(p, t, m) is Some,
        spec_object_outcome(p, t, m) is Resolved,
    ensures
        ({
            let rs = spec_object_outcome(p, t, m)->Resolved_resolutions;
            &&& rs.len() == 1
            &&& rs[0].dispatch == DispatchKind::DynamicTraitObject
            &&& rs[0].candidates.len() == spec_impl_count(p, t, p.impls@.len() as int)
            &&& rs[0].candidates.len() > 0
        }),
{
    let decl = spec_find_declaring(p, t, m)->Some_0;
    lemma_object_candidates_cover(p, t, decl, m, p.impls@.len() as int);
}

/// Call sites classified `InherentStatic` or `TraitStaticQualified` are
/// precise: every such resolution carries exactly one candidate, whatever
/// the site's form.
pub proof fn lemma_precise_kinds_single_candidate(p: Program, mode: Mode, s: CallSite, k: int)
    requires
        spec_resolve_site(p, mode, s) is Resolved,
        0 <= k < spec_resolve_site(p, mode, s)->Resolved_resolutions.len(),
        spec_resolve_site(p, mode, s)->Resolved_resolutions[k].dispatch
            == DispatchKind::InherentStatic || spec_resolve_site(
            p,
            mode,
            s,
        )->Resolved_resolutions[k].dispatch == DispatchKind::TraitStaticQualified,
    ensures
        spec_resolve_site(p, mode, s)->Resolved_resolutions[k].candidates.len() == 1,
{
    let base = spec_resolve_callee(p, mode, s.callee, s.scope@, s.loc.module);
    if s.expanded_from is Some {
        // every wrapped resolution is classified MacroExpanded, so the
        // precise kinds cannot occur and the claim holds vacuously
        assert(spec_resolve_site(p, mode, s)->Resolved_resolutions[k].dispatch
            == DispatchKind::MacroExpanded);
    } else {
        match s.callee {
            Callee::GenericParam { bound, method, instantiations } => {
                lemma_generic_list_shape(
                    p,
                    bound,
                    method,
                    instantiations@,
                    instantiations@.len() as int,
                );
            },
            _ => {},
        }
    }
}

/// The first step of the lookup order wins: a visible inherent
/// by-reference method of the searched name decides an instance call as
/// `InherentStatic`, whatever traits are in scope beside it.
pub proof fn lemma_inherent_ref_method_wins(
    p: Program,
    ty: usize,
    name: u64,
    scope: Seq<usize>,
    internal: bool,
)
    requires
        ty < p.types@.len(),
        spec_find_inherent(
            p.types@[ty as int].methods@,
            0,
            name,
            ReceiverClass::ByRef,
            internal,
        ) is Some,
    ensures
        spec_lookup(p, ty, name, scope, true, internal)
            == (LookupResult::Found {
            hit: LookupHit::Inherent { type_id: ty },
        }),
{
    reveal_with_fuel(spec_lookup_from, 2);
}

/// The by-reference steps precede the by-value ones: with no visible
/// inherent by-reference method, the one in-scope trait matching at the
/// by-reference class decides the call, outranking any inherent method that
/// takes its receiver by value or by mutable reference.
pub proof fn lemma_trait_ref_method_outranks_inherent_mut(
    p: Program,
    ty: usize,
    name: u64,
    scope: Seq<usize>,
    internal: bool,
)
    requires
        ty < p.types@.len(),
        spec_find_inherent(
            p.types@[ty as int].methods@,
            0,
            name,
            ReceiverClass::ByRef,
            internal,
        ) is None,
        spec_match_count(
            p,
            scope,
            0,
            ty,
            name,
            ReceiverClass::ByRef,
        ) == 1,
    ensures
        ({
            let t = spec_first_match(
                p,
                scope,
                0,
                ty,
                name,
                ReceiverClass::ByRef,
            )->Some_0;
            let im = spec_find_impl(p.impls@, 0, ty, t)->Some_0;
            spec_lookup(p, ty, name, scope, true, internal)
                == (LookupResult::Found {
                hit: LookupHit::Trait {
                    trait_id: t,
                    impl_id: im,
                    provided: spec_provides(p.impls@[im as int], name),
                },
            })
        }),
{
    reveal_with_fuel(spec_lookup_from, 3);
}

/// Qualified trait syntax circumvents method lookup, so it can never fail
/// with a method-lookup ambiguity, whatever the receiver.
pub proof fn lemma_qualified_never_ambiguous(
    p: Program,
    mode: Mode,
    trait_id: usize,
    method: u64,
    recv: RecvType,
    scope: Seq<usize>,
    caller_module: u64,
)
    ensures
        spec_resolve_callee(
            p,
            mode,
            Callee::Qualified { trait_id, method, recv },
            scope,
            caller_module,
        ) != (SiteOutcomeView::Failed { error: SiteError::AmbiguousMethodLookup }),
{
}

/// Under a configuration, a function of two conditionally compiled variants
/// collapses to exactly the variant whose guard holds — the other variant's
/// guard does not hold — while configuration-agnostic mode reports both
/// variants, in order.
pub proof fn lemma_conditional_collapse(p: Program, mode: Mode, f: usize)
    requires
        f < p.functions@.len(),
        p.function_wf(p.functions@[f as int]),
        p.functions@[f as int].variants@.len() == 2,
    ensures
        match mode {
            Mode::Single { config } => {
                let v = spec_first_active(p, p.functions@[f as int], config, 0)->Some_0;
                &&& spec_first_active(p, p.functions@[f as int], config, 0) is Some
                &&& v < 2
                &&& spec_free_outcome(p, mode, f) == one_outcome(
                    DispatchKind::ConditionallyCompiled,
                    seq![Target::FreeVariant { function: f, variant: v }],
                )
                &&& spec_guard_holds(p, p.functions@[f as int].variants@[v as int], config)
                &&& !spec_guard_holds(
                    p,
                    p.functions@[f as int].variants@[1 - v as int],
                    config,
                )
            },
            Mode::AllConfigs => spec_free_outcome(p, mode, f) == one_outcome(
                DispatchKind::ConditionallyCompiled,
                seq![
                    Target::FreeVariant { function: f, variant: 0 },
                    Target::FreeVariant { function: f, variant: 1 },
                ],
            ),
        },
{
    let fun = p.functions@[f as int];
    match mode {
        Mode::Single { config } => {
            lemma_active_exists(p, fun, config);
            reveal_with_fuel(spec_first_active, 3);
            let v = spec_first_active(p, fun, config, 0)->Some_0;
            match (fun.variants@[0], fun.variants@[1]) {
                (
                    Guard::Feature { feature: fa, enabled: ea },
                    Guard::Feature { feature: fb, enabled: eb },
                ) => {
                    assert(fa == fb && ea == !eb);
                },
                _ => {
                    assert(false);
                },
            }
        },
        Mode::AllConfigs => {
            assert(spec_variant_targets(f, 2) =~= seq![
                Target::FreeVariant { function: f, variant: 0 },
                Target::FreeVariant { function: f, variant: 1 },
            ]) by {
                reveal_with_fuel(spec_variant_targets, 3);
            }
        },
    }
}

} // verus!

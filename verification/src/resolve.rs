//! The call-site classifier and target-set enumerator.
//!
//! Classification follows the priority rules, first match wins: qualified
//! trait syntax resolves against the named trait's impl for the receiver's
//! static type (or dynamically, when the receiver is a trait object); a
//! trait-object receiver dispatches dynamically to every implementer of the
//! trait; ordinary method syntax runs method lookup; a method left to its
//! trait default resolves to the default body, not to any impl; a call on a
//! bound generic parameter resolves once per concrete instantiation; an
//! indirect call through a function value matches every target of compatible
//! signature; a free function with several conditionally compiled variants
//! resolves by build configuration; and a macro-expanded call resolves as
//! its expansion, keeping its provenance.
use vstd::prelude::*;

use crate::config::Mode;
use crate::config::first_active;
use crate::config::spec_first_active;
use crate::lookup::LookupHit;
use crate::lookup::LookupResult;
use crate::lookup::find_impl;
use crate::lookup::lemma_find_impl_some;
use crate::lookup::lookup;
use crate::lookup::provides;
use crate::lookup::spec_find_impl;
use crate::lookup::spec_lookup;
use crate::lookup::spec_provides;
use crate::model::CallSite;
use crate::model::Callee;
use crate::model::Program;
use crate::model::RecvType;
use crate::model::TraitMethodDecl;
use crate::signatures::sig_candidates;
use crate::signatures::spec_sig_candidates;
use crate::signatures::spec_variant_targets;
use crate::signatures::variant_targets;
use crate::target::DispatchKind;
use crate::target::Note;
use crate::target::Resolution;
use crate::target::ResolutionView;
use crate::target::SiteError;
use crate::target::SiteOutcome;
use crate::target::SiteOutcomeView;
use crate::target::Target;

verus! {

/// An outcome of a single resolution without notes.
pub open spec fn one_outcome(dispatch: DispatchKind, candidates: Seq<Target>) -> SiteOutcomeView {
    SiteOutcomeView::Resolved {
        resolutions: seq![
            ResolutionView { dispatch, candidates, notes: Seq::<Note>::empty() },
        ],
    }
}

/// The first method declaration of `methods` at or after `from` with the
/// given name, whatever its receiver form.
pub open spec fn spec_find_method_by_name(
    methods: Seq<TraitMethodDecl>,
    from: int,
    name: u64,
) -> Option<usize>
    decreases methods.len() - from,
{
    if from < 0 || from >= methods.len() {
        None
    } else if methods[from].name == name {
        Some(from as usize)
    } else {
        spec_find_method_by_name(methods, from + 1, name)
    }
}

/// Executable twin of [`spec_find_method_by_name`].
pub fn find_method_by_name(methods: &Vec<TraitMethodDecl>, from: usize, name: u64) -> (r: Option<
    usize,
>)
    requires
        from <= methods@.len(),
    ensures
        r == spec_find_method_by_name(methods@, from as int, name),
    decreases methods@.len() - from,
{
    if from == methods.len() {
        None
    } else if methods[from].name == name {
        Some(from)
    } else {
        find_method_by_name(methods, from + 1, name)
    }
}

/// A found method index lies in range and carries the name searched for.
pub proof fn lemma_find_method_by_name_some(methods: Seq<TraitMethodDecl>, from: int, name: u64)
    requires
        0 <= from <= methods.len(),
        methods.len() <= usize::MAX,
    ensures
        match spec_find_method_by_name(methods, from, name) {
            Some(j) => from <= (j as int) && (j as int) < methods.len() && methods[j as int].name
                == name,
            None => true,
        },
    decreases methods.len() - from,
{
    if from < methods.len() && methods[from].name != name {
        lemma_find_method_by_name_some(methods, from + 1, name);
    }
}

/// The trait that a trait-object method call actually reaches: the object's
/// own trait when it declares the method, else the first supertrait (depth
/// first, in declaration order) that does. Supertraits pointing upwards are
/// skipped; a well-formed program has none.
pub open spec fn spec_find_declaring(p: Program, t: usize, m: u64) -> Option<usize>
    decreases t, p.traits@[t as int].supertraits@.len() + 1,
{
    if t >= p.traits@.len() {
        None
    } else if spec_find_method_by_name(p.traits@[t as int].methods@, 0, m) is Some {
        Some(t)
    } else {
        spec_find_declaring_super(p, t, 0, m)
    }
}

/// The first supertrait of `t` at or after position `k` through which the
/// method is reachable.
pub open spec fn spec_find_declaring_super(p: Program, t: usize, k: int, m: u64) -> Option<usize>
    decreases t, p.traits@[t as int].supertraits@.len() - k,
{
    if t >= p.traits@.len() || k < 0 || k >= p.traits@[t as int].supertraits@.len() {
        None
    } else {
        let s = p.traits@[t as int].supertraits@[k];
        let found = if s < t {
            spec_find_declaring(p, s, m)
        } else {
            None
        };
        if found is Some {
            found
        } else {
            spec_find_declaring_super(p, t, k + 1, m)
        }
    }
}

/// Executable twin of [`spec_find_declaring`].
pub fn find_declaring(p: &Program, t: usize, m: u64) -> (r: Option<usize>)
    ensures
        r == spec_find_declaring(*p, t, m),
    decreases t, p.traits@[t as int].supertraits@.len() + 1,
{
    if t >= p.traits.len() {
        None
    } else if find_method_by_name(&p.traits[t].methods, 0, m).is_some() {
        Some(t)
    } else {
        find_declaring_super(p, t, 0, m)
    }
}

/// Executable twin of [`spec_find_declaring_super`].
pub fn find_declaring_super(p: &Program, t: usize, k: usize, m: u64) -> (r: Option<usize>)
    ensures
        r == spec_find_declaring_super(*p, t, k as int, m),
    decreases t, p.traits@[t as int].supertraits@.len() - k,
{
    if t >= p.traits.len() || k >= p.traits[t].supertraits.len() {
        None
    } else {
        let s = p.traits[t].supertraits[k];
        let found = if s < t {
            find_declaring(p, s, m)
        } else {
            None
        };
        if found.is_some() {
            found
        } else {
            find_declaring_super(p, t, k + 1, m)
        }
    }
}

/// The target that the type with index `type_id` contributes for method `m`
/// declared by the trait with index `decl`: the body its impl provides, or
/// the trait's default body when the impl relies on it (or, vacuously, when
/// no impl exists — a well-formed dispatch never asks in that case).
pub open spec fn spec_object_target(p: Program, type_id: usize, decl: usize, m: u64) -> Target {
    match spec_find_impl(p.impls@, 0, type_id, decl) {
        Some(k) => if spec_provides(p.impls@[k as int], m) {
            Target::ImplMethod { impl_id: k, method: m }
        } else {
            Target::TraitDefault { trait_id: decl, method: m }
        },
        None => Target::TraitDefault { trait_id: decl, method: m },
    }
}

/// Executable twin of [`spec_object_target`].
pub fn object_target(p: &Program, type_id: usize, decl: usize, m: u64) -> (r: Target)
    ensures
        r == spec_object_target(*p, type_id, decl, m),
{
    let n_impls = p.impls.len();
    match find_impl(&p.impls, 0, type_id, decl) {
        Some(k) => {
            proof {
                assert(p.impls@.len() == n_impls);
                lemma_find_impl_some(p.impls@, 0, type_id, decl);
            }
            if provides(&p.impls[k], m) {
                Target::ImplMethod { impl_id: k, method: m }
            } else {
                Target::TraitDefault { trait_id: decl, method: m }
            }
        },
        None => Target::TraitDefault { trait_id: decl, method: m },
    }
}

/// The dynamic-dispatch candidate list for method `m` on a trait object of
/// the trait with index `t`, over the first `upto` impls: one target per
/// impl of `t`, in impl declaration order, each resolved against the
/// declaring trait `decl`.
pub open spec fn spec_object_candidates(p: Program, t: usize, decl: usize, m: u64, upto: int) -> Seq<
    Target,
>
    decreases upto,
{
    if upto <= 0 {
        Seq::empty()
    } else {
        let rest = spec_object_candidates(p, t, decl, m, upto - 1);
        if p.impls@[upto - 1].trait_id == t {
            rest.push(spec_object_target(p, p.impls@[upto - 1].type_id, decl, m))
        } else {
            rest
        }
    }
}

/// Executable twin of [`spec_object_candidates`], over all impls.
pub fn object_candidates(p: &Program, t: usize, decl: usize, m: u64) -> (r: Vec<Target>)
    ensures
        r@ == spec_object_candidates(*p, t, decl, m, p.impls@.len() as int),
{
    let mut r: Vec<Target> = Vec::new();
    let mut i: usize = 0;
    while i < p.impls.len()
        invariant
            i <= p.impls@.len(),
            r@ == spec_object_candidates(*p, t, decl, m, i as int),
        decreases p.impls@.len() - i,
    {
        if p.impls[i].trait_id == t {
            let tg = object_target(p, p.impls[i].type_id, decl, m);
            r.push(tg);
        }
        i = i + 1;
    }
    r
}

/// Dynamic dispatch on a trait object of trait `t`: the candidate set is one
/// target per implementer of `t`, resolved against the trait that declares
/// `m` (the object's trait or a supertrait). A trait with no implementer, or
/// a method no trait of the hierarchy declares, is `NoImplementationFound`.
pub open spec fn spec_object_outcome(p: Program, t: usize, m: u64) -> SiteOutcomeView {
    match spec_find_declaring(p, t, m) {
        Some(decl) => {
            let cands = spec_object_candidates(p, t, decl, m, p.impls@.len() as int);
            if cands.len() == 0 {
                SiteOutcomeView::Failed { error: SiteError::NoImplementationFound }
            } else {
                one_outcome(DispatchKind::DynamicTraitObject, cands)
            }
        },
        None => SiteOutcomeView::Failed { error: SiteError::NoImplementationFound },
    }
}

/// The single target of a qualified or monomorphized call `<ty as t>::m`:
/// the impl's own body, or the trait default the impl relies on. `None` when
/// `ty` does not implement `t` at all, or the impl neither provides the
/// method nor has a default to fall back on.
pub open spec fn spec_instance_target(p: Program, t: usize, m: u64, ty: usize) -> Option<Target> {
    match spec_find_impl(p.impls@, 0, ty, t) {
        Some(k) => if spec_provides(p.impls@[k as int], m) {
            Some(Target::ImplMethod { impl_id: k, method: m })
        } else {
            if t < p.traits@.len() {
                match spec_find_method_by_name(p.traits@[t as int].methods@, 0, m) {
                    Some(j) => if p.traits@[t as int].methods@[j as int].has_default {
                        Some(Target::TraitDefault { trait_id: t, method: m })
                    } else {
                        None
                    },
                    None => None,
                }
            } else {
                None
            }
        },
        None => None,
    }
}

/// Executable twin of [`spec_instance_target`].
pub fn instance_target(p: &Program, t: usize, m: u64, ty: usize) -> (r: Option<Target>)
    ensures
        r == spec_instance_target(*p, t, m, ty),
{
    let n_impls = p.impls.len();
    match find_impl(&p.impls, 0, ty, t) {
        Some(k) => {
            proof {
                assert(p.impls@.len() == n_impls);
                lemma_find_impl_some(p.impls@, 0, ty, t);
            }
            if provides(&p.impls[k], m) {
                Some(Target::ImplMethod { impl_id: k, method: m })
            } else {
                if t < p.traits.len() {
                    let n_methods = p.traits[t].methods.len();
                    match find_method_by_name(&p.traits[t].methods, 0, m) {
                        Some(j) => {
                            proof {
                                assert(p.traits@[t as int].methods@.len() == n_methods);
                                lemma_find_method_by_name_some(
                                    p.traits@[t as int].methods@,
                                    0,
                                    m,
                                );
                            }
                            if p.traits[t].methods[j].has_default {
                                Some(Target::TraitDefault { trait_id: t, method: m })
                            } else {
                                None
                            }
                        },
                        None => None,
                    }
                } else {
                    None
                }
            }
        },
        None => None,
    }
}

/// The dispatch kind of a qualified call, read off the target form: an
/// impl-provided body is `TraitStaticQualified`, a default body is
/// `TraitDefaultStatic`.
pub open spec fn qualified_kind(tg: Target) -> DispatchKind {
    match tg {
        Target::TraitDefault { .. } => DispatchKind::TraitDefaultStatic,
        _ => DispatchKind::TraitStaticQualified,
    }
}

/// A qualified call `<ty as t>::m` on a concrete receiver type: exactly one
/// candidate, or `NoImplementationFound`.
pub open spec fn spec_qualified_outcome(p: Program, t: usize, m: u64, ty: usize) -> SiteOutcomeView {
    match spec_instance_target(p, t, m, ty) {
        Some(tg) => one_outcome(qualified_kind(tg), seq![tg]),
        None => SiteOutcomeView::Failed { error: SiteError::NoImplementationFound },
    }
}

/// Ordinary method syntax on a concrete receiver: method lookup decides, and
/// the dispatch kind follows the hit — an inherent method is
/// `InherentStatic`, an impl-provided trait method found by lookup is
/// `TraitStaticMethodLookup`, a default body is `TraitDefaultStatic`. A tie
/// is `AmbiguousMethodLookup`; no visible method is `NoImplementationFound`.
pub open spec fn spec_method_outcome(
    p: Program,
    ty: usize,
    m: u64,
    scope: Seq<usize>,
    instance: bool,
    internal: bool,
) -> SiteOutcomeView {
    match spec_lookup(p, ty, m, scope, instance, internal) {
        LookupResult::Found { hit } => match hit {
            LookupHit::Inherent { type_id } => one_outcome(
                DispatchKind::InherentStatic,
                seq![Target::InherentMethod { type_id, method: m }],
            ),
            LookupHit::Trait { trait_id, impl_id, provided } => if provided {
                one_outcome(
                    DispatchKind::TraitStaticMethodLookup,
                    seq![Target::ImplMethod { impl_id, method: m }],
                )
            } else {
                one_outcome(
                    DispatchKind::TraitDefaultStatic,
                    seq![Target::TraitDefault { trait_id, method: m }],
                )
            },
        },
        LookupResult::Ambiguous => SiteOutcomeView::Failed {
            error: SiteError::AmbiguousMethodLookup,
        },
        LookupResult::NotFound => SiteOutcomeView::Failed {
            error: SiteError::NoImplementationFound,
        },
    }
}

/// The per-instantiation resolutions of a call on a generic parameter bound
/// by trait `t`, over the first `upto` instantiations: each concrete type
/// contributes one single-candidate resolution of its own, so distinct
/// instantiations never merge. `None` when some instantiation has no impl.
pub open spec fn spec_generic_list(
    p: Program,
    t: usize,
    m: u64,
    insts: Seq<usize>,
    upto: int,
) -> Option<Seq<ResolutionView>>
    decreases upto,
{
    if upto <= 0 {
        Some(Seq::empty())
    } else {
        match (spec_generic_list(p, t, m, insts, upto - 1), spec_instance_target(
            p,
            t,
            m,
            insts[upto - 1],
        )) {
            (Some(rest), Some(tg)) => Some(
                rest.push(
                    ResolutionView {
                        dispatch: DispatchKind::GenericMonomorphized,
                        candidates: seq![tg],
                        notes: Seq::<Note>::empty(),
                    },
                ),
            ),
            _ => None,
        }
    }
}

/// An instantiation without a target makes the whole per-instantiation list
/// fail, however many instantiations follow it.
pub proof fn lemma_generic_list_none(
    p: Program,
    t: usize,
    m: u64,
    insts: Seq<usize>,
    i: int,
    upto: int,
)
    requires
        0 <= i < upto <= insts.len(),
        spec_instance_target(p, t, m, insts[i]) is None,
    ensures
        spec_generic_list(p, t, m, insts, upto) is None,
    decreases upto,
{
    if upto - 1 > i {
        lemma_generic_list_none(p, t, m, insts, i, upto - 1);
    }
}

/// A call on a bound generic parameter: one resolution per concrete
/// instantiation, or `NoImplementationFound` when an instantiation lacks an
/// impl.
pub open spec fn spec_generic_outcome(p: Program, t: usize, m: u64, insts: Seq<usize>) -> SiteOutcomeView {
    match spec_generic_list(p, t, m, insts, insts.len() as int) {
        Some(resolutions) => SiteOutcomeView::Resolved { resolutions },
        None => SiteOutcomeView::Failed { error: SiteError::NoImplementationFound },
    }
}

/// A call of a free function. A single unconditional variant is a plain
/// static call; several conditionally compiled variants resolve to the one
/// active variant under the supplied configuration, or to all variants in
/// configuration-agnostic mode.
pub open spec fn spec_free_outcome(p: Program, mode: Mode, f: usize) -> SiteOutcomeView {
    let fun = p.functions@[f as int];
    if fun.variants@.len() == 0 {
        SiteOutcomeView::Failed { error: SiteError::NoImplementationFound }
    } else if fun.variants@.len() == 1 {
        one_outcome(
            DispatchKind::InherentStatic,
            seq![Target::FreeVariant { function: f, variant: 0 }],
        )
    } else {
        match mode {
            Mode::AllConfigs => one_outcome(
                DispatchKind::ConditionallyCompiled,
                spec_variant_targets(f, fun.variants@.len() as int),
            ),
            Mode::Single { config } => match spec_first_active(p, fun, config, 0) {
                Some(v) => one_outcome(
                    DispatchKind::ConditionallyCompiled,
                    seq![Target::FreeVariant { function: f, variant: v }],
                ),
                None => SiteOutcomeView::Failed { error: SiteError::NoImplementationFound },
            },
        }
    }
}

/// An indirect call through a function pointer or an `Fn`-trait object: the
/// candidates are every target of compatible signature; an empty set is a
/// soundness warning noted on the record, not an error.
pub open spec fn spec_pointer_outcome(p: Program, sig: u64, dispatch: DispatchKind) -> SiteOutcomeView {
    let cands = spec_sig_candidates(p, sig);
    SiteOutcomeView::Resolved {
        resolutions: seq![
            ResolutionView {
                dispatch,
                candidates: cands,
                notes: if cands.len() == 0 {
                    seq![Note::PointerUnresolved]
                } else {
                    Seq::<Note>::empty()
                },
            },
        ],
    }
}

/// Classification and enumeration for one callee, by the priority rules.
pub open spec fn spec_resolve_callee(
    p: Program,
    mode: Mode,
    c: Callee,
    scope: Seq<usize>,
    caller_module: u64,
) -> SiteOutcomeView {
    match c {
        Callee::Qualified { trait_id, method, recv } => match recv {
            RecvType::TraitObject { trait_id: _ } => spec_object_outcome(p, trait_id, method),
            RecvType::Concrete { type_id } => spec_qualified_outcome(p, trait_id, method, type_id),
        },
        Callee::Method { recv, method, instance } => match recv {
            RecvType::TraitObject { trait_id } => spec_object_outcome(p, trait_id, method),
            RecvType::Concrete { type_id } => spec_method_outcome(
                p,
                type_id,
                method,
                scope,
                instance,
                caller_module == p.types@[type_id as int].module,
            ),
        },
        Callee::GenericParam { bound, method, instantiations } => spec_generic_outcome(
            p,
            bound,
            method,
            instantiations@,
        ),
        Callee::Free { function } => spec_free_outcome(p, mode, function),
        Callee::Pointer { sig } => spec_pointer_outcome(p, sig, DispatchKind::FunctionPointer),
        Callee::FnObject { sig } => spec_pointer_outcome(p, sig, DispatchKind::FnTraitObject),
    }
}

/// A macro-expanded resolution: the record is classified `MacroExpanded`,
/// keeps the candidates of the expansion, and notes the macro name together
/// with the dispatch kind the expansion resolved by.
pub open spec fn wrap_expanded(rv: ResolutionView, macro_name: u64) -> ResolutionView {
    ResolutionView {
        dispatch: DispatchKind::MacroExpanded,
        candidates: rv.candidates,
        notes: rv.notes.push(Note::Expanded { macro_name, underlying: rv.dispatch }),
    }
}

/// Resolution of one call site: the callee resolved by the priority rules,
/// then wrapped with macro provenance when the site came from an expansion.
pub open spec fn spec_resolve_site(p: Program, mode: Mode, s: CallSite) -> SiteOutcomeView {
    let base = spec_resolve_callee(p, mode, s.callee, s.scope@, s.loc.module);
    match s.expanded_from {
        Some(name) => match base {
            SiteOutcomeView::Resolved { resolutions } => SiteOutcomeView::Resolved {
                resolutions: resolutions.map_values(|rv: ResolutionView| wrap_expanded(rv, name)),
            },
            SiteOutcomeView::Failed { error } => SiteOutcomeView::Failed { error },
        },
        None => base,
    }
}

/// Builds the executable outcome of a single resolution without notes.
fn make_one_outcome(dispatch: DispatchKind, candidates: Vec<Target>) -> (r: SiteOutcome)
    ensures
        r@ == one_outcome(dispatch, candidates@),
{
    let mut resolutions: Vec<Resolution> = Vec::new();
    resolutions.push(Resolution { dispatch, candidates, notes: Vec::new() });
    let r = SiteOutcome::Resolved { resolutions };
    proof {
        assert(r@->resolutions =~= one_outcome(dispatch, candidates@)->resolutions);
    }
    r
}

/// Executable twin of [`spec_object_outcome`].
pub fn object_outcome(p: &Program, t: usize, m: u64) -> (r: SiteOutcome)
    ensures
        r@ == spec_object_outcome(*p, t, m),
{
    match find_declaring(p, t, m) {
        Some(decl) => {
            let cands = object_candidates(p, t, decl, m);
            if cands.len() == 0 {
                SiteOutcome::Failed { error: SiteError::NoImplementationFound }
            } else {
                make_one_outcome(DispatchKind::DynamicTraitObject, cands)
            }
        },
        None => SiteOutcome::Failed { error: SiteError::NoImplementationFound },
    }
}

/// Executable twin of [`spec_qualified_outcome`].
pub fn qualified_outcome(p: &Program, t: usize, m: u64, ty: usize) -> (r: SiteOutcome)
    ensures
        r@ == spec_qualified_outcome(*p, t, m, ty),
{
    match instance_target(p, t, m, ty) {
        Some(tg) => {
            let kind = match tg {
                Target::TraitDefault { .. } => DispatchKind::TraitDefaultStatic,
                _ => DispatchKind::TraitStaticQualified,
            };
            let mut candidates: Vec<Target> = Vec::new();
            candidates.push(tg);
            proof {
                assert(candidates@ =~= seq![tg]);
            }
            make_one_outcome(kind, candidates)
        },
        None => SiteOutcome::Failed { error: SiteError::NoImplementationFound },
    }
}

/// Executable twin of [`spec_method_outcome`].
pub fn method_outcome(
    p: &Program,
    ty: usize,
    m: u64,
    scope: &Vec<usize>,
    instance: bool,
    internal: bool,
) -> (r: SiteOutcome)
    requires
        ty < p.types@.len(),
    ensures
        r@ == spec_method_outcome(*p, ty, m, scope@, instance, internal),
{
    match lookup(p, ty, m, scope, instance, internal) {
        LookupResult::Found { hit } => match hit {
            LookupHit::Inherent { type_id } => {
                let mut candidates: Vec<Target> = Vec::new();
                candidates.push(Target::InherentMethod { type_id, method: m });
                proof {
                    assert(candidates@ =~= seq![Target::InherentMethod { type_id, method: m }]);
                }
                make_one_outcome(DispatchKind::InherentStatic, candidates)
            },
            LookupHit::Trait { trait_id, impl_id, provided } => {
                let mut candidates: Vec<Target> = Vec::new();
                let kind: DispatchKind;
                if provided {
                    candidates.push(Target::ImplMethod { impl_id, method: m });
                    kind = DispatchKind::TraitStaticMethodLookup;
                } else {
                    candidates.push(Target::TraitDefault { trait_id, method: m });
                    kind = DispatchKind::TraitDefaultStatic;
                }
                make_one_outcome(kind, candidates)
            },
        },
        LookupResult::Ambiguous => SiteOutcome::Failed { error: SiteError::AmbiguousMethodLookup },
        LookupResult::NotFound => SiteOutcome::Failed { error: SiteError::NoImplementationFound },
    }
}

/// Executable twin of [`spec_generic_outcome`].
pub fn generic_outcome(p: &Program, t: usize, m: u64, insts: &Vec<usize>) -> (r: SiteOutcome)
    ensures
        r@ == spec_generic_outcome(*p, t, m, insts@),
{
    let mut resolutions: Vec<Resolution> = Vec::new();
    let mut i: usize = 0;
    while i < insts.len()
        invariant
            i <= insts@.len(),
            spec_generic_list(*p, t, m, insts@, i as int) == Some(
                resolutions@.map_values(|rv: Resolution| rv@),
            ),
        decreases insts@.len() - i,
    {
        match instance_target(p, t, m, insts[i]) {
            Some(tg) => {
                let mut candidates: Vec<Target> = Vec::new();
                candidates.push(tg);
                let res = Resolution {
                    dispatch: DispatchKind::GenericMonomorphized,
                    candidates,
                    notes: Vec::new(),
                };
                let ghost old_views = resolutions@.map_values(|rv: Resolution| rv@);
                let ghost res_view = res@;
                resolutions.push(res);
                proof {
                    assert(resolutions@.map_values(|rv: Resolution| rv@) =~= old_views.push(
                        res_view,
                    ));
                    assert(res_view.candidates =~= seq![tg]);
                }
            },
            None => {
                proof {
                    lemma_generic_list_none(*p, t, m, insts@, i as int, insts@.len() as int);
                }
                return SiteOutcome::Failed { error: SiteError::NoImplementationFound };
            },
        }
        i = i + 1;
    }
    let r = SiteOutcome::Resolved { resolutions };
    r
}

/// Executable twin of [`spec_free_outcome`].
pub fn free_outcome(p: &Program, mode: &Mode, f: usize) -> (r: SiteOutcome)
    requires
        f < p.functions@.len(),
    ensures
        r@ == spec_free_outcome(*p, *mode, f),
{
    let n = p.functions[f].variants.len();
    if n == 0 {
        SiteOutcome::Failed { error: SiteError::NoImplementationFound }
    } else if n == 1 {
        let mut candidates: Vec<Target> = Vec::new();
        candidates.push(Target::FreeVariant { function: f, variant: 0 });
        proof {
            assert(candidates@ =~= seq![Target::FreeVariant { function: f, variant: 0 }]);
        }
        make_one_outcome(DispatchKind::InherentStatic, candidates)
    } else {
        match mode {
            Mode::AllConfigs => {
                let cands = variant_targets(f, n);
                make_one_outcome(DispatchKind::ConditionallyCompiled, cands)
            },
            Mode::Single { config } => {
                match first_active(p, &p.functions[f], config, 0) {
                    Some(v) => {
                        let mut candidates: Vec<Target> = Vec::new();
                        candidates.push(Target::FreeVariant { function: f, variant: v });
                        proof {
                            assert(candidates@ =~= seq![
                                Target::FreeVariant { function: f, variant: v },
                            ]);
                        }
                        make_one_outcome(DispatchKind::ConditionallyCompiled, candidates)
                    },
                    None => SiteOutcome::Failed { error: SiteError::NoImplementationFound },
                }
            },
        }
    }
}

/// Executable twin of [`spec_pointer_outcome`].
pub fn pointer_outcome(p: &Program, sig: u64, dispatch: DispatchKind) -> (r: SiteOutcome)
    ensures
        r@ == spec_pointer_outcome(*p, sig, dispatch),
{
    let cands = sig_candidates(p, sig);
    let mut notes: Vec<Note> = Vec::new();
    if cands.len() == 0 {
        notes.push(Note::PointerUnresolved);
    }
    let mut resolutions: Vec<Resolution> = Vec::new();
    resolutions.push(Resolution { dispatch, candidates: cands, notes });
    let r = SiteOutcome::Resolved { resolutions };
    proof {
        assert(r@->resolutions =~= spec_pointer_outcome(*p, sig, dispatch)->resolutions);
    }
    r
}

/// Executable twin of [`spec_resolve_callee`].
pub fn resolve_callee(
    p: &Program,
    mode: &Mode,
    c: &Callee,
    scope: &Vec<usize>,
    caller_module: u64,
) -> (r: SiteOutcome)
    requires
        match *c {
            Callee::Method { recv, method, instance } => p.recv_wf(recv),
            Callee::Free { function } => function < p.functions@.len(),
            _ => true,
        },
    ensures
        r@ == spec_resolve_callee(*p, *mode, *c, scope@, caller_module),
{
    match c {
        Callee::Qualified { trait_id, method, recv } => match recv {
            RecvType::TraitObject { trait_id: _ } => object_outcome(p, *trait_id, *method),
            RecvType::Concrete { type_id } => qualified_outcome(p, *trait_id, *method, *type_id),
        },
        Callee::Method { recv, method, instance } => match recv {
            RecvType::TraitObject { trait_id } => object_outcome(p, *trait_id, *method),
            RecvType::Concrete { type_id } => method_outcome(
                p,
                *type_id,
                *method,
                scope,
                *instance,
                caller_module == p.types[*type_id].module,
            ),
        },
        Callee::GenericParam { bound, method, instantiations } => generic_outcome(
            p,
            *bound,
            *method,
            instantiations,
        ),
        Callee::Free { function } => free_outcome(p, mode, *function),
        Callee::Pointer { sig } => pointer_outcome(p, *sig, DispatchKind::FunctionPointer),
        Callee::FnObject { sig } => pointer_outcome(p, *sig, DispatchKind::FnTraitObject),
    }
}

/// Executable twin of [`wrap_expanded`]. The notes gain the provenance entry
/// and the kind becomes `MacroExpanded`.
fn wrap_expanded_exec(r: Resolution, macro_name: u64) -> (w: Resolution)
    ensures
        w@ == wrap_expanded(r@, macro_name),
{
    let Resolution { dispatch, candidates, mut notes } = r;
    notes.push(Note::Expanded { macro_name, underlying: dispatch });
    Resolution { dispatch: DispatchKind::MacroExpanded, candidates, notes }
}

/// Executable twin of [`spec_resolve_site`]: resolution of one call site.
pub fn resolve_site(p: &Program, mode: &Mode, s: &CallSite) -> (r: SiteOutcome)
    requires
        p.site_wf(*s),
    ensures
        r@ == spec_resolve_site(*p, *mode, *s),
{
    let base = resolve_callee(p, mode, &s.callee, &s.scope, s.loc.module);
    match s.expanded_from {
        Some(name) => match base {
            SiteOutcome::Resolved { mut resolutions } => {
                let ghost orig = resolutions@.map_values(|rv: Resolution| rv@);
                let mut wrapped: Vec<Resolution> = Vec::new();
                let mut i: usize = 0;
                let n = resolutions.len();
                while i < n
                    invariant
                        i <= n,
                        n == resolutions@.len() + i,
                        orig.len() == n,
                        forall|k: int|
                            0 <= k < resolutions@.len() ==> (#[trigger] resolutions@[k])@ == orig[k
                                + i],
                        wrapped@.map_values(|rv: Resolution| rv@) =~= orig.subrange(
                            0,
                            i as int,
                        ).map_values(|rv: ResolutionView| wrap_expanded(rv, name)),
                    decreases n - i,
                {
                    let first = resolutions.remove(0);
                    let ghost old_wrapped = wrapped@.map_values(|rv: Resolution| rv@);
                    let w = wrap_expanded_exec(first, name);
                    let ghost w_view = w@;
                    wrapped.push(w);
                    proof {
                        assert(wrapped@.map_values(|rv: Resolution| rv@) =~= old_wrapped.push(
                            w_view,
                        ));
                        assert(orig.subrange(0, i + 1).map_values(
                            |rv: ResolutionView| wrap_expanded(rv, name),
                        ) =~= orig.subrange(0, i as int).map_values(
                            |rv: ResolutionView| wrap_expanded(rv, name),
                        ).push(wrap_expanded(orig[i as int], name)));
                    }
                    i = i + 1;
                }
                proof {
                    assert(orig.subrange(0, n as int) =~= orig);
                }
                let r = SiteOutcome::Resolved { resolutions: wrapped };
                r
            },
            SiteOutcome::Failed { error } => SiteOutcome::Failed { error },
        },
        None => base,
    }
}

} // verus!

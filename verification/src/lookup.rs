//! Method lookup for ordinary call syntax (`recv.m(...)` and `Type::m(...)`).
//!
//! The precedence rules are held as data: an ordered list of lookup steps,
//! each naming a method source (inherent methods, or in-scope trait
//! implementations) and a receiver class. The first step that yields a
//! visible match decides the call; two or more in-scope traits matching at
//! the same step are a compile-time ambiguity, never a silent choice.
use vstd::prelude::*;

use crate::model::ImplDef;
use crate::model::MethodDecl;
use crate::model::Program;
use crate::model::ReceiverClass;
use crate::model::TraitMethodDecl;
use crate::model::Visibility;

verus! {

/// Where one lookup step searches: the receiver type's own methods, or the
/// methods of traits that are in scope at the call site and implemented by
/// the receiver type.
#[derive(Clone, Copy, PartialEq, Eq, Structural, Debug)]
pub enum MethodSource {
    Inherent,
    InScopeTrait,
}

/// One step of the lookup order: a method source searched for methods of one
/// receiver class.
#[derive(Clone, Copy, PartialEq, Eq, Structural, Debug)]
pub struct LookupStep {
    pub source: MethodSource,
    pub receiver: ReceiverClass,
}

/// What a successful lookup found: an inherent method of the receiver type,
/// or a trait method reached through an in-scope trait, together with the
/// impl that binds the receiver type to that trait and whether the impl
/// provides the method or relies on the trait's default body.
#[derive(Clone, Copy, PartialEq, Eq, Structural, Debug)]
pub enum LookupHit {
    Inherent { type_id: usize },
    Trait { trait_id: usize, impl_id: usize, provided: bool },
}

/// The outcome of method lookup: a hit, a tie between in-scope traits at one
/// step (an error, surfaced as `AmbiguousMethodLookup`), or no visible match.
#[derive(Clone, Copy, PartialEq, Eq, Structural, Debug)]
pub enum LookupResult {
    Found { hit: LookupHit },
    Ambiguous,
    NotFound,
}

/// The lookup order, as data. Instance calls search by-reference methods
/// before by-value or by-mutable-reference ones, inherent methods before
/// in-scope trait methods at each receiver class; associated-function calls
/// search only the static class, inherent first.
pub open spec fn spec_lookup_order(instance: bool) -> Seq<LookupStep> {
    if instance {
        seq![
            LookupStep { source: MethodSource::Inherent, receiver: ReceiverClass::ByRef },
            LookupStep { source: MethodSource::InScopeTrait, receiver: ReceiverClass::ByRef },
            LookupStep { source: MethodSource::Inherent, receiver: ReceiverClass::ByMutOrOwn },
            LookupStep { source: MethodSource::InScopeTrait, receiver: ReceiverClass::ByMutOrOwn },
        ]
    } else {
        seq![
            LookupStep { source: MethodSource::Inherent, receiver: ReceiverClass::Stat },
            LookupStep { source: MethodSource::InScopeTrait, receiver: ReceiverClass::Stat },
        ]
    }
}

/// Executable twin of [`spec_lookup_order`].
pub fn lookup_order(instance: bool) -> (r: Vec<LookupStep>)
    ensures
        r@ == spec_lookup_order(instance),
{
    let mut r: Vec<LookupStep> = Vec::new();
    if instance {
        r.push(LookupStep { source: MethodSource::Inherent, receiver: ReceiverClass::ByRef });
        r.push(LookupStep { source: MethodSource::InScopeTrait, receiver: ReceiverClass::ByRef });
        r.push(LookupStep { source: MethodSource::Inherent, receiver: ReceiverClass::ByMutOrOwn });
        r.push(
            LookupStep { source: MethodSource::InScopeTrait, receiver: ReceiverClass::ByMutOrOwn },
        );
    } else {
        r.push(LookupStep { source: MethodSource::Inherent, receiver: ReceiverClass::Stat });
        r.push(LookupStep { source: MethodSource::InScopeTrait, receiver: ReceiverClass::Stat });
    }
    proof {
        assert(r@ =~= spec_lookup_order(instance));
    }
    r
}

/// Whether one inherent method declaration answers a lookup for `name` at
/// receiver class `cls` from a call site that is `internal` to the defining
/// module. Private methods are visible only internally.
pub open spec fn inherent_matches(m: MethodDecl, name: u64, cls: ReceiverClass, internal: bool) -> bool {
    &&& m.name == name
    &&& m.receiver.spec_class() == cls
    &&& (m.visibility == Visibility::Public || internal)
}

/// The first inherent method at or after index `from` that matches, if any.
pub open spec fn spec_find_inherent(
    methods: Seq<MethodDecl>,
    from: int,
    name: u64,
    cls: ReceiverClass,
    internal: bool,
) -> Option<usize>
    decreases methods.len() - from,
{
    if from < 0 || from >= methods.len() {
        None
    } else if inherent_matches(methods[from], name, cls, internal) {
        Some(from as usize)
    } else {
        spec_find_inherent(methods, from + 1, name, cls, internal)
    }
}

/// Executable twin of [`spec_find_inherent`].
pub fn find_inherent(
    methods: &Vec<MethodDecl>,
    from: usize,
    name: u64,
    cls: ReceiverClass,
    internal: bool,
) -> (r: Option<usize>)
    requires
        from <= methods@.len(),
    ensures
        r == spec_find_inherent(methods@, from as int, name, cls, internal),
    decreases methods@.len() - from,
{
    if from == methods.len() {
        None
    } else {
        let m = methods[from];
        if m.name == name && m.receiver.class() == cls && (matches!(
            m.visibility,
            Visibility::Public,
        ) || internal) {
            Some(from)
        } else {
            find_inherent(methods, from + 1, name, cls, internal)
        }
    }
}

/// The first trait method declaration at or after index `from` with the given
/// name and receiver class, if any.
pub open spec fn spec_find_trait_method(
    methods: Seq<TraitMethodDecl>,
    from: int,
    name: u64,
    cls: ReceiverClass,
) -> Option<usize>
    decreases methods.len() - from,
{
    if from < 0 || from >= methods.len() {
        None
    } else if methods[from].name == name && methods[from].receiver.spec_class() == cls {
        Some(from as usize)
    } else {
        spec_find_trait_method(methods, from + 1, name, cls)
    }
}

/// Executable twin of [`spec_find_trait_method`].
pub fn find_trait_method(
    methods: &Vec<TraitMethodDecl>,
    from: usize,
    name: u64,
    cls: ReceiverClass,
) -> (r: Option<usize>)
    requires
        from <= methods@.len(),
    ensures
        r == spec_find_trait_method(methods@, from as int, name, cls),
    decreases methods@.len() - from,
{
    if from == methods.len() {
        None
    } else {
        let m = methods[from];
        if m.name == name && m.receiver.class() == cls {
            Some(from)
        } else {
            find_trait_method(methods, from + 1, name, cls)
        }
    }
}

/// The first impl at or after index `from` binding `type_id` to `trait_id`,
/// if any. Under coherence there is at most one in the whole program.
pub open spec fn spec_find_impl(
    impls: Seq<ImplDef>,
    from: int,
    type_id: usize,
    trait_id: usize,
) -> Option<usize>
    decreases impls.len() - from,
{
    if from < 0 || from >= impls.len() {
        None
    } else if impls[from].type_id == type_id && impls[from].trait_id == trait_id {
        Some(from as usize)
    } else {
        spec_find_impl(impls, from + 1, type_id, trait_id)
    }
}

/// Executable twin of [`spec_find_impl`].
pub fn find_impl(impls: &Vec<ImplDef>, from: usize, type_id: usize, trait_id: usize) -> (r: Option<
    usize,
>)
    requires
        from <= impls@.len(),
    ensures
        r == spec_find_impl(impls@, from as int, type_id, trait_id),
    decreases impls@.len() - from,
{
    if from == impls.len() {
        None
    } else if impls[from].type_id == type_id && impls[from].trait_id == trait_id {
        Some(from)
    } else {
        find_impl(impls, from + 1, type_id, trait_id)
    }
}

/// The first entry of `provided` at or after index `from` equal to `name`.
pub open spec fn spec_find_name(names: Seq<u64>, from: int, name: u64) -> Option<usize>
    decreases names.len() - from,
{
    if from < 0 || from >= names.len() {
        None
    } else if names[from] == name {
        Some(from as usize)
    } else {
        spec_find_name(names, from + 1, name)
    }
}

/// Executable twin of [`spec_find_name`].
pub fn find_name(names: &Vec<u64>, from: usize, name: u64) -> (r: Option<usize>)
    requires
        from <= names@.len(),
    ensures
        r == spec_find_name(names@, from as int, name),
    decreases names@.len() - from,
{
    if from == names.len() {
        None
    } else if names[from] == name {
        Some(from)
    } else {
        find_name(names, from + 1, name)
    }
}

/// A found impl index lies in range and its entry binds the type and trait
/// searched for.
pub proof fn lemma_find_impl_some(impls: Seq<ImplDef>, from: int, type_id: usize, trait_id: usize)
    requires
        0 <= from <= impls.len(),
        impls.len() <= usize::MAX,
        spec_find_impl(impls, from, type_id, trait_id) is Some,
    ensures
        match spec_find_impl(impls, from, type_id, trait_id) {
            Some(i) => from <= (i as int) && (i as int) < impls.len() && impls[i as int].type_id
                == type_id && impls[i as int].trait_id == trait_id,
            None => true,
        },
    decreases impls.len() - from,
{
    if from < impls.len() {
        if impls[from].type_id == type_id && impls[from].trait_id == trait_id {
            assert(spec_find_impl(impls, from, type_id, trait_id) == Some(from as usize));
        } else {
            lemma_find_impl_some(impls, from + 1, type_id, trait_id);
            assert(spec_find_impl(impls, from, type_id, trait_id) == spec_find_impl(
                impls,
                from + 1,
                type_id,
                trait_id,
            ));
        }
    } else {
        assert(spec_find_impl(impls, from, type_id, trait_id) is None);
    }
}

/// Whether an impl gives the named method a body of its own.
pub open spec fn spec_provides(im: ImplDef, name: u64) -> bool {
    spec_find_name(im.provided@, 0, name) is Some
}

/// Executable twin of [`spec_provides`].
pub fn provides(im: &ImplDef, name: u64) -> (r: bool)
    ensures
        r == spec_provides(*im, name),
{
    find_name(&im.provided, 0, name).is_some()
}

/// Whether the in-scope trait `t` answers a lookup for `name` at receiver
/// class `cls` on receiver type `ty`: the trait declares such a method and
/// the program has an impl binding `ty` to `t`.
pub open spec fn trait_matches(p: Program, t: usize, ty: usize, name: u64, cls: ReceiverClass) -> bool {
    &&& t < p.traits@.len()
    &&& spec_find_trait_method(p.traits@[t as int].methods@, 0, name, cls) is Some
    &&& spec_find_impl(p.impls@, 0, ty, t) is Some
}

/// How many traits of `scope` at or after index `from` match.
pub open spec fn spec_match_count(
    p: Program,
    scope: Seq<usize>,
    from: int,
    ty: usize,
    name: u64,
    cls: ReceiverClass,
) -> nat
    decreases scope.len() - from,
{
    if from < 0 || from >= scope.len() {
        0
    } else {
        (if trait_matches(p, scope[from], ty, name, cls) {
            1 as nat
        } else {
            0 as nat
        }) + spec_match_count(p, scope, from + 1, ty, name, cls)
    }
}

/// The first trait of `scope` at or after index `from` that matches, if any.
pub open spec fn spec_first_match(
    p: Program,
    scope: Seq<usize>,
    from: int,
    ty: usize,
    name: u64,
    cls: ReceiverClass,
) -> Option<usize>
    decreases scope.len() - from,
{
    if from < 0 || from >= scope.len() {
        None
    } else if trait_matches(p, scope[from], ty, name, cls) {
        Some(scope[from])
    } else {
        spec_first_match(p, scope, from + 1, ty, name, cls)
    }
}

/// Executable twin of [`trait_matches`].
pub fn trait_matches_exec(p: &Program, t: usize, ty: usize, name: u64, cls: ReceiverClass) -> (r:
    bool)
    ensures
        r == trait_matches(*p, t, ty, name, cls),
{
    if t < p.traits.len() {
        let tm = find_trait_method(&p.traits[t].methods, 0, name, cls);
        if tm.is_some() {
            find_impl(&p.impls, 0, ty, t).is_some()
        } else {
            false
        }
    } else {
        false
    }
}

/// Executable twin of [`spec_match_count`] and [`spec_first_match`]: the
/// number of matching in-scope traits from index `from` on, and the first of
/// them.
pub fn scope_matches(
    p: &Program,
    scope: &Vec<usize>,
    from: usize,
    ty: usize,
    name: u64,
    cls: ReceiverClass,
) -> (r: (usize, Option<usize>))
    requires
        from <= scope@.len(),
    ensures
        r.0 as nat == spec_match_count(*p, scope@, from as int, ty, name, cls),
        r.1 == spec_first_match(*p, scope@, from as int, ty, name, cls),
    decreases scope@.len() - from,
{
    if from == scope.len() {
        (0, None)
    } else {
        let here = trait_matches_exec(p, scope[from], ty, name, cls);
        let (rest_count, rest_first) = scope_matches(p, scope, from + 1, ty, name, cls);
        proof {
            lemma_match_count_bound(*p, scope@, from as int + 1, ty, name, cls);
        }
        if here {
            (rest_count + 1, Some(scope[from]))
        } else {
            (rest_count, rest_first)
        }
    }
}

/// The number of matches among the remaining scope entries never exceeds the
/// number of entries, so the running count in [`scope_matches`] cannot
/// overflow.
pub proof fn lemma_match_count_bound(
    p: Program,
    scope: Seq<usize>,
    from: int,
    ty: usize,
    name: u64,
    cls: ReceiverClass,
)
    requires
        0 <= from <= scope.len(),
    ensures
        spec_match_count(p, scope, from, ty, name, cls) <= scope.len() - from,
    decreases scope.len() - from,
{
    if from < scope.len() {
        lemma_match_count_bound(p, scope, from + 1, ty, name, cls);
    }
}

/// What one lookup step finds: a hit, an ambiguity between in-scope traits,
/// or nothing. An inherent step takes the first matching method of the
/// receiver type; a trait step requires exactly one in-scope trait to match.
pub open spec fn spec_step_result(
    p: Program,
    step: LookupStep,
    ty: usize,
    name: u64,
    scope: Seq<usize>,
    internal: bool,
) -> LookupResult {
    match step.source {
        MethodSource::Inherent => {
            match spec_find_inherent(p.types@[ty as int].methods@, 0, name, step.receiver, internal) {
                Some(_) => LookupResult::Found { hit: LookupHit::Inherent { type_id: ty } },
                None => LookupResult::NotFound,
            }
        },
        MethodSource::InScopeTrait => {
            let c = spec_match_count(p, scope, 0, ty, name, step.receiver);
            if c == 0 {
                LookupResult::NotFound
            } else if c == 1 {
                let t = spec_first_match(p, scope, 0, ty, name, step.receiver)->Some_0;
                let im = spec_find_impl(p.impls@, 0, ty, t)->Some_0;
                LookupResult::Found {
                    hit: LookupHit::Trait {
                        trait_id: t,
                        impl_id: im,
                        provided: spec_provides(p.impls@[im as int], name),
                    },
                }
            } else {
                LookupResult::Ambiguous
            }
        },
    }
}

/// The first match among the matching traits is a match, and its impl exists.
pub proof fn lemma_first_match_is_match(
    p: Program,
    scope: Seq<usize>,
    from: int,
    ty: usize,
    name: u64,
    cls: ReceiverClass,
)
    requires
        0 <= from <= scope.len(),
        spec_match_count(p, scope, from, ty, name, cls) > 0,
    ensures
        spec_first_match(p, scope, from, ty, name, cls) is Some,
        trait_matches(p, spec_first_match(p, scope, from, ty, name, cls)->Some_0, ty, name, cls),
    decreases scope.len() - from,
{
    if from < scope.len() && !trait_matches(p, scope[from], ty, name, cls) {
        lemma_first_match_is_match(p, scope, from + 1, ty, name, cls);
    }
}

/// Executable twin of [`spec_step_result`].
pub fn step_result(
    p: &Program,
    step: LookupStep,
    ty: usize,
    name: u64,
    scope: &Vec<usize>,
    internal: bool,
) -> (r: LookupResult)
    requires
        ty < p.types@.len(),
    ensures
        r == spec_step_result(*p, step, ty, name, scope@, internal),
{
    match step.source {
        MethodSource::Inherent => {
            match find_inherent(&p.types[ty].methods, 0, name, step.receiver, internal) {
                Some(_) => LookupResult::Found { hit: LookupHit::Inherent { type_id: ty } },
                None => LookupResult::NotFound,
            }
        },
        MethodSource::InScopeTrait => {
            let (c, first) = scope_matches(p, scope, 0, ty, name, step.receiver);
            if c == 0 {
                LookupResult::NotFound
            } else if c == 1 {
                proof {
                    lemma_first_match_is_match(*p, scope@, 0, ty, name, step.receiver);
                }
                let t = first.unwrap();
                let n_impls = p.impls.len();
                let im = find_impl(&p.impls, 0, ty, t).unwrap();
                proof {
                    assert(p.impls@.len() == n_impls);
                    lemma_find_impl_some(p.impls@, 0, ty, t);
                }
                LookupResult::Found {
                    hit: LookupHit::Trait {
                        trait_id: t,
                        impl_id: im,
                        provided: provides(&p.impls[im], name),
                    },
                }
            } else {
                LookupResult::Ambiguous
            }
        },
    }
}

/// Full method lookup: the steps of [`spec_lookup_order`] are tried from
/// index `k` on; the first step that finds a hit or an ambiguity decides.
pub open spec fn spec_lookup_from(
    p: Program,
    steps: Seq<LookupStep>,
    k: int,
    ty: usize,
    name: u64,
    scope: Seq<usize>,
    internal: bool,
) -> LookupResult
    decreases steps.len() - k,
{
    if k < 0 || k >= steps.len() {
        LookupResult::NotFound
    } else {
        let sr = spec_step_result(p, steps[k], ty, name, scope, internal);
        if sr == LookupResult::NotFound {
            spec_lookup_from(p, steps, k + 1, ty, name, scope, internal)
        } else {
            sr
        }
    }
}

/// Method lookup for a call of `name` on concrete receiver type `ty`, with
/// the given traits in scope. `instance` selects the lookup order for
/// instance-call syntax as against associated-function syntax; `internal`
/// says whether the call site sits in the module defining `ty`.
pub open spec fn spec_lookup(
    p: Program,
    ty: usize,
    name: u64,
    scope: Seq<usize>,
    instance: bool,
    internal: bool,
) -> LookupResult {
    spec_lookup_from(p, spec_lookup_order(instance), 0, ty, name, scope, internal)
}

/// Executable twin of [`spec_lookup_from`], walking the step table.
pub fn lookup_from(
    p: &Program,
    steps: &Vec<LookupStep>,
    k: usize,
    ty: usize,
    name: u64,
    scope: &Vec<usize>,
    internal: bool,
) -> (r: LookupResult)
    requires
        k <= steps@.len(),
        ty < p.types@.len(),
    ensures
        r == spec_lookup_from(*p, steps@, k as int, ty, name, scope@, internal),
    decreases steps@.len() - k,
{
    if k == steps.len() {
        LookupResult::NotFound
    } else {
        let sr = step_result(p, steps[k], ty, name, scope, internal);
        if sr == LookupResult::NotFound {
            lookup_from(p, steps, k + 1, ty, name, scope, internal)
        } else {
            sr
        }
    }
}

/// Executable twin of [`spec_lookup`].
pub fn lookup(
    p: &Program,
    ty: usize,
    name: u64,
    scope: &Vec<usize>,
    instance: bool,
    internal: bool,
) -> (r: LookupResult)
    requires
        ty < p.types@.len(),
    ensures
        r == spec_lookup(*p, ty, name, scope@, instance, internal),
{
    let steps = lookup_order(instance);
    lookup_from(p, &steps, 0, ty, name, scope, internal)
}

} // verus!

//! Executable validation of the model invariants: a program is checked
//! against [`Program::wf`] and each call site against [`Program::site_wf`]
//! before resolution is trusted, so a caller holding arbitrary input can
//! reject an ill-formed model instead of resolving over it.
use vstd::prelude::*;

use crate::lookup::find_impl;
use crate::lookup::find_name;
use crate::lookup::spec_find_impl;
use crate::lookup::spec_find_name;
use crate::model::CallSite;
use crate::model::FunctionDef;
use crate::model::Callee;
use crate::model::Guard;
use crate::model::ImplDef;
use crate::model::Program;
use crate::model::RecvType;
use crate::model::TraitDef;
use crate::model::TraitMethodDecl;
use crate::model::TypeDef;
use crate::resolve::find_method_by_name;
use crate::resolve::spec_find_method_by_name;

verus! {

/// A name search misses exactly when no entry from `from` on carries the
/// name.
proof fn lemma_find_name_none(names: Seq<u64>, from: int, name: u64)
    requires
        0 <= from <= names.len(),
    ensures
        spec_find_name(names, from, name) is None <==> (forall|k: int|
            from <= k < names.len() ==> names[k] != name),
    decreases names.len() - from,
{
    if from < names.len() {
        lemma_find_name_none(names, from + 1, name);
    }
}

/// `contains` on a sequence of names agrees with the name search.
proof fn lemma_find_name_contains(names: Seq<u64>, name: u64)
    ensures
        spec_find_name(names, 0, name) is Some <==> names.contains(name),
{
    lemma_find_name_none(names, 0, name);
    if names.contains(name) {
        let k = choose|k: int| 0 <= k < names.len() && names[k] == name;
        assert(names[k] == name);
    }
}

/// A method search by name misses exactly when no declaration from `from` on
/// carries the name, so a hit agrees with [`TraitDef::spec_declares`].
proof fn lemma_find_method_none(
    methods: Seq<TraitMethodDecl>,
    from: int,
    name: u64,
)
    requires
        0 <= from <= methods.len(),
    ensures
        spec_find_method_by_name(methods, from, name) is None <==> (forall|k: int|
            from <= k < methods.len() ==> methods[k].name != name),
    decreases methods.len() - from,
{
    if from < methods.len() {
        lemma_find_method_none(methods, from + 1, name);
    }
}

/// The search for a declared method agrees with [`TraitDef::spec_declares`].
proof fn lemma_find_method_declares(tr: TraitDef, name: u64)
    ensures
        spec_find_method_by_name(tr.methods@, 0, name) is Some <==> tr.spec_declares(name),
{
    lemma_find_method_none(tr.methods@, 0, name);
    if tr.spec_declares(name) {
        let k = choose|k: int| 0 <= k < tr.methods@.len() && tr.methods@[k].name == name;
        assert(tr.methods@[k].name == name);
    }
}

/// An impl search misses exactly when no impl from `from` on binds the pair,
/// so a hit agrees with [`Program::spec_has_impl`].
proof fn lemma_find_impl_none(impls: Seq<ImplDef>, from: int, type_id: usize, trait_id: usize)
    requires
        0 <= from <= impls.len(),
    ensures
        spec_find_impl(impls, from, type_id, trait_id) is None <==> (forall|k: int|
            from <= k < impls.len() ==> !(impls[k].type_id == type_id && impls[k].trait_id
                == trait_id)),
    decreases impls.len() - from,
{
    if from < impls.len() {
        lemma_find_impl_none(impls, from + 1, type_id, trait_id);
    }
}

/// The impl search agrees with [`Program::spec_has_impl`].
proof fn lemma_find_impl_has(p: Program, type_id: usize, trait_id: usize)
    ensures
        spec_find_impl(p.impls@, 0, type_id, trait_id) is Some <==> p.spec_has_impl(
            type_id,
            trait_id,
        ),
{
    lemma_find_impl_none(p.impls@, 0, type_id, trait_id);
    if p.spec_has_impl(type_id, trait_id) {
        let k = choose|k: int|
            0 <= k < p.impls@.len() && p.impls@[k].type_id == type_id && p.impls@[k].trait_id
                == trait_id;
        assert(p.impls@[k].type_id == type_id);
    }
}

/// Checks that no two inherent methods of the type share a name and a
/// receiver class.
fn check_type_wf(ty: &TypeDef) -> (r: bool)
    ensures
        r == ty.wf(),
{
    let n = ty.methods.len();
    let mut i: usize = 0;
    while i < n
        invariant
            n == ty.methods@.len(),
            i <= n,
            forall|a: int, b: int|
                0 <= a < b < n && a < i ==> !(ty.methods@[a].name == ty.methods@[b].name
                    && ty.methods@[a].receiver.spec_class()
                    == ty.methods@[b].receiver.spec_class()),
        decreases n - i,
    {
        let mut j: usize = i + 1;
        while j < n
            invariant
                n == ty.methods@.len(),
                i < n,
                i + 1 <= j <= n,
                forall|a: int, b: int|
                    0 <= a < b < n && a < i ==> !(ty.methods@[a].name == ty.methods@[b].name
                        && ty.methods@[a].receiver.spec_class()
                        == ty.methods@[b].receiver.spec_class()),
                forall|b: int|
                    i < b < j ==> !(ty.methods@[i as int].name == ty.methods@[b].name
                        && ty.methods@[i as int].receiver.spec_class()
                        == ty.methods@[b].receiver.spec_class()),
            decreases n - j,
        {
            let a = ty.methods[i];
            let b = ty.methods[j];
            if a.name == b.name && a.receiver.class() == b.receiver.class() {
                return false;
            }
            j = j + 1;
        }
        i = i + 1;
    }
    true
}

/// Checks that the trait's method names are distinct and its supertraits
/// point at strictly earlier traits.
fn check_trait_wf(tr: &TraitDef, own_index: usize) -> (r: bool)
    ensures
        r == tr.wf(own_index as int),
{
    let n = tr.methods.len();
    let mut i: usize = 0;
    while i < n
        invariant
            n == tr.methods@.len(),
            i <= n,
            forall|a: int, b: int|
                0 <= a < b < n && a < i ==> tr.methods@[a].name != tr.methods@[b].name,
        decreases n - i,
    {
        let mut j: usize = i + 1;
        while j < n
            invariant
                n == tr.methods@.len(),
                i < n,
                i + 1 <= j <= n,
                forall|a: int, b: int|
                    0 <= a < b < n && a < i ==> tr.methods@[a].name != tr.methods@[b].name,
                forall|b: int| i < b < j ==> tr.methods@[i as int].name != tr.methods@[b].name,
            decreases n - j,
        {
            if tr.methods[i].name == tr.methods[j].name {
                return false;
            }
            j = j + 1;
        }
        i = i + 1;
    }
    let mut k: usize = 0;
    while k < tr.supertraits.len()
        invariant
            tr.methods_distinct(),
            k <= tr.supertraits@.len(),
            forall|s: int| 0 <= s < k ==> tr.supertraits@[s] < own_index as int,
        decreases tr.supertraits@.len() - k,
    {
        if tr.supertraits[k] >= own_index {
            return false;
        }
        k = k + 1;
    }
    true
}

/// Checks one impl: indices in range, every provided method declared by the
/// trait, no method listed twice, every non-default method provided.
fn check_impl_wf(p: &Program, im: &ImplDef) -> (r: bool)
    ensures
        r == p.impl_wf(*im),
{
    if im.type_id >= p.types.len() {
        return false;
    }
    if im.trait_id >= p.traits.len() {
        return false;
    }
    let tr = &p.traits[im.trait_id];
    let n = im.provided.len();
    let mut k: usize = 0;
    while k < n
        invariant
            im.trait_id < p.traits@.len(),
            tr == &p.traits@[im.trait_id as int],
            n == im.provided@.len(),
            k <= n,
            forall|a: int|
                0 <= a < k ==> p.traits@[im.trait_id as int].spec_declares(
                    #[trigger] im.provided@[a],
                ),
        decreases n - k,
    {
        let name = im.provided[k];
        let found = find_method_by_name(&tr.methods, 0, name);
        proof {
            lemma_find_method_declares(p.traits@[im.trait_id as int], name);
        }
        if found.is_none() {
            return false;
        }
        k = k + 1;
    }
    let mut i: usize = 0;
    while i < n
        invariant
            n == im.provided@.len(),
            i <= n,
            forall|a: int|
                0 <= a < n ==> p.traits@[im.trait_id as int].spec_declares(
                    #[trigger] im.provided@[a],
                ),
            im.trait_id < p.traits@.len(),
            tr == &p.traits@[im.trait_id as int],
            forall|a: int, b: int| 0 <= a < b < n && a < i ==> im.provided@[a] != im.provided@[b],
        decreases n - i,
    {
        let mut j: usize = i + 1;
        while j < n
            invariant
                n == im.provided@.len(),
                i < n,
                i + 1 <= j <= n,
                forall|a: int, b: int|
                    0 <= a < b < n && a < i ==> im.provided@[a] != im.provided@[b],
                forall|b: int| i < b < j ==> im.provided@[i as int] != im.provided@[b],
            decreases n - j,
        {
            if im.provided[i] == im.provided[j] {
                return false;
            }
            j = j + 1;
        }
        i = i + 1;
    }
    let m = tr.methods.len();
    let mut t: usize = 0;
    while t < m
        invariant
            n == im.provided@.len(),
            forall|a: int|
                0 <= a < n ==> p.traits@[im.trait_id as int].spec_declares(
                    #[trigger] im.provided@[a],
                ),
            forall|a: int, b: int| 0 <= a < b < n ==> im.provided@[a] != im.provided@[b],
            im.trait_id < p.traits@.len(),
            tr == &p.traits@[im.trait_id as int],
            m == tr.methods@.len(),
            t <= m,
            forall|a: int|
                0 <= a < t && !(#[trigger] p.traits@[im.trait_id as int].methods@[a]).has_default
                    ==> im.provided@.contains(p.traits@[im.trait_id as int].methods@[a].name),
        decreases m - t,
    {
        let decl = tr.methods[t];
        if !decl.has_default {
            let found = find_name(&im.provided, 0, decl.name);
            proof {
                lemma_find_name_contains(im.provided@, decl.name);
            }
            if found.is_none() {
                return false;
            }
        }
        t = t + 1;
    }
    true
}

/// Checks one function: a single unconditional variant, or two opposite
/// guards over one declared feature.
fn check_function_wf(p: &Program, f: &FunctionDef) -> (r: bool)
    ensures
        r == p.function_wf(*f),
{
    if f.variants.len() == 1 {
        matches!(f.variants[0], Guard::Always)
    } else if f.variants.len() == 2 {
        match (f.variants[0], f.variants[1]) {
            (
                Guard::Feature { feature: fa, enabled: ea },
                Guard::Feature { feature: fb, enabled: eb },
            ) => fa == fb && fa < p.features.len() && ea == !eb,
            _ => false,
        }
    } else {
        false
    }
}

/// Checks the whole model against [`Program::wf`]: run it once over an
/// untrusted model before resolving call sites against it.
pub fn validate_program(p: &Program) -> (r: bool)
    ensures
        r == p.wf(),
{
    let mut t: usize = 0;
    while t < p.types.len()
        invariant
            t <= p.types@.len(),
            forall|a: int| 0 <= a < t ==> (#[trigger] p.types@[a]).wf(),
            forall|a: int|
                0 <= a < t ==> (#[trigger] p.types@[a]).methods@.len() <= usize::MAX,
        decreases p.types@.len() - t,
    {
        let n_methods = p.types[t].methods.len();
        proof {
            assert(p.types@[t as int].methods@.len() == n_methods);
        }
        if !check_type_wf(&p.types[t]) {
            return false;
        }
        t = t + 1;
    }
    let mut t: usize = 0;
    while t < p.traits.len()
        invariant
            t <= p.traits@.len(),
            forall|a: int| 0 <= a < t ==> (#[trigger] p.traits@[a]).wf(a),
            forall|a: int|
                0 <= a < t ==> (#[trigger] p.traits@[a]).methods@.len() <= usize::MAX
                    && p.traits@[a].supertraits@.len() <= usize::MAX,
        decreases p.traits@.len() - t,
    {
        let n_methods = p.traits[t].methods.len();
        let n_supers = p.traits[t].supertraits.len();
        proof {
            assert(p.traits@[t as int].methods@.len() == n_methods);
            assert(p.traits@[t as int].supertraits@.len() == n_supers);
        }
        if !check_trait_wf(&p.traits[t], t) {
            return false;
        }
        t = t + 1;
    }
    let mut k: usize = 0;
    while k < p.impls.len()
        invariant
            k <= p.impls@.len(),
            forall|a: int| 0 <= a < k ==> p.impl_wf(#[trigger] p.impls@[a]),
            forall|a: int|
                0 <= a < k ==> (#[trigger] p.impls@[a]).provided@.len() <= usize::MAX,
        decreases p.impls@.len() - k,
    {
        let n_provided = p.impls[k].provided.len();
        proof {
            assert(p.impls@[k as int].provided@.len() == n_provided);
        }
        if !check_impl_wf(p, &p.impls[k]) {
            return false;
        }
        k = k + 1;
    }
    // coherence: at most one impl per type and trait pair
    let mut i: usize = 0;
    while i < p.impls.len()
        invariant
            i <= p.impls@.len(),
            forall|a: int, b: int|
                0 <= a < b < p.impls@.len() && a < i ==> !(p.impls@[a].type_id
                    == p.impls@[b].type_id && p.impls@[a].trait_id == p.impls@[b].trait_id),
        decreases p.impls@.len() - i,
    {
        let mut j: usize = i + 1;
        while j < p.impls.len()
            invariant
                i < p.impls@.len(),
                i + 1 <= j <= p.impls@.len(),
                forall|a: int, b: int|
                    0 <= a < b < p.impls@.len() && a < i ==> !(p.impls@[a].type_id
                        == p.impls@[b].type_id && p.impls@[a].trait_id == p.impls@[b].trait_id),
                forall|b: int|
                    i < b < j ==> !(p.impls@[i as int].type_id == p.impls@[b].type_id
                        && p.impls@[i as int].trait_id == p.impls@[b].trait_id),
            decreases p.impls@.len() - j,
        {
            if p.impls[i].type_id == p.impls[j].type_id && p.impls[i].trait_id
                == p.impls[j].trait_id {
                return false;
            }
            j = j + 1;
        }
        i = i + 1;
    }
    // supertrait closure: an impl of a trait comes with impls of its
    // supertraits
    let mut k: usize = 0;
    while k < p.impls.len()
        invariant
            k <= p.impls@.len(),
            forall|a: int| 0 <= a < p.impls@.len() ==> p.impl_wf(#[trigger] p.impls@[a]),
            forall|a: int, s: int|
                0 <= a < k && 0 <= s
                    < p.traits@[p.impls@[a].trait_id as int].supertraits@.len()
                    ==> #[trigger] p.spec_has_impl(
                    p.impls@[a].type_id,
                    p.traits@[p.impls@[a].trait_id as int].supertraits@[s],
                ),
        decreases p.impls@.len() - k,
    {
        let trait_id = p.impls[k].trait_id;
        let type_id = p.impls[k].type_id;
        let supers = &p.traits[trait_id].supertraits;
        let mut s: usize = 0;
        while s < supers.len()
            invariant
                k < p.impls@.len(),
                trait_id == p.impls@[k as int].trait_id,
                type_id == p.impls@[k as int].type_id,
                trait_id < p.traits@.len(),
                supers == &p.traits@[trait_id as int].supertraits,
                s <= supers@.len(),
                forall|a: int, sp: int|
                    0 <= a < k && 0 <= sp
                        < p.traits@[p.impls@[a].trait_id as int].supertraits@.len()
                        ==> #[trigger] p.spec_has_impl(
                        p.impls@[a].type_id,
                        p.traits@[p.impls@[a].trait_id as int].supertraits@[sp],
                    ),
                forall|sp: int|
                    0 <= sp < s ==> #[trigger] p.spec_has_impl(
                        p.impls@[k as int].type_id,
                        p.traits@[p.impls@[k as int].trait_id as int].supertraits@[sp],
                    ),
            decreases supers@.len() - s,
        {
            let found = find_impl(&p.impls, 0, type_id, supers[s]);
            proof {
                lemma_find_impl_has(*p, type_id, supers@[s as int]);
            }
            if found.is_none() {
                return false;
            }
            s = s + 1;
        }
        k = k + 1;
    }
    let mut f: usize = 0;
    while f < p.functions.len()
        invariant
            f <= p.functions@.len(),
            forall|a: int| 0 <= a < f ==> p.function_wf(#[trigger] p.functions@[a]),
            forall|a: int|
                0 <= a < f ==> (#[trigger] p.functions@[a]).variants@.len() <= usize::MAX,
        decreases p.functions@.len() - f,
    {
        let n_variants = p.functions[f].variants.len();
        proof {
            assert(p.functions@[f as int].variants@.len() == n_variants);
        }
        if !check_function_wf(p, &p.functions[f]) {
            return false;
        }
        f = f + 1;
    }
    let mut i: usize = 0;
    while i < p.features.len()
        invariant
            i <= p.features@.len(),
            forall|a: int, b: int|
                0 <= a < b < p.features@.len() && a < i ==> p.features@[a] != p.features@[b],
        decreases p.features@.len() - i,
    {
        let mut j: usize = i + 1;
        while j < p.features.len()
            invariant
                i < p.features@.len(),
                i + 1 <= j <= p.features@.len(),
                forall|a: int, b: int|
                    0 <= a < b < p.features@.len() && a < i ==> p.features@[a] != p.features@[b],
                forall|b: int| i < b < j ==> p.features@[i as int] != p.features@[b],
            decreases p.features@.len() - j,
        {
            if p.features[i] == p.features[j] {
                return false;
            }
            j = j + 1;
        }
        i = i + 1;
    }
    true
}

/// Checks one call site against [`Program::site_wf`]: every index it carries
/// in range, qualified and generic calls naming declared methods, and the
/// instantiation list free of duplicates.
pub fn validate_site(p: &Program, s: &CallSite) -> (r: bool)
    ensures
        r == p.site_wf(*s),
{
    let mut k: usize = 0;
    while k < s.scope.len()
        invariant
            k <= s.scope@.len(),
            forall|a: int| 0 <= a < k ==> s.scope@[a] < p.traits@.len(),
        decreases s.scope@.len() - k,
    {
        if s.scope[k] >= p.traits.len() {
            return false;
        }
        k = k + 1;
    }
    match &s.callee {
        Callee::Qualified { trait_id, method, recv } => {
            if *trait_id >= p.traits.len() {
                return false;
            }
            let found = find_method_by_name(&p.traits[*trait_id].methods, 0, *method);
            proof {
                lemma_find_method_declares(p.traits@[*trait_id as int], *method);
            }
            if found.is_none() {
                return false;
            }
            check_recv(p, *recv)
        },
        Callee::Method { recv, method: _, instance: _ } => check_recv(p, *recv),
        Callee::GenericParam { bound, method, instantiations } => {
            if *bound >= p.traits.len() {
                return false;
            }
            let found = find_method_by_name(&p.traits[*bound].methods, 0, *method);
            proof {
                lemma_find_method_declares(p.traits@[*bound as int], *method);
            }
            if found.is_none() {
                return false;
            }
            check_insts_in_range(p, instantiations) && check_insts_distinct(instantiations)
        },
        Callee::Free { function } => *function < p.functions.len(),
        Callee::Pointer { sig: _ } => true,
        Callee::FnObject { sig: _ } => true,
    }
}

/// Whether every instantiation names a type of the program.
fn check_insts_in_range(p: &Program, insts: &Vec<usize>) -> (r: bool)
    ensures
        r == (forall|a: int| 0 <= a < insts@.len() ==> insts@[a] < p.types@.len()),
{
    let mut k: usize = 0;
    while k < insts.len()
        invariant
            k <= insts@.len(),
            forall|a: int| 0 <= a < k ==> insts@[a] < p.types@.len(),
        decreases insts@.len() - k,
    {
        if insts[k] >= p.types.len() {
            return false;
        }
        k = k + 1;
    }
    true
}

/// Whether the instantiation list holds no type twice.
fn check_insts_distinct(insts: &Vec<usize>) -> (r: bool)
    ensures
        r == (forall|a: int, b: int| 0 <= a < b < insts@.len() ==> insts@[a] != insts@[b]),
{
    let n = insts.len();
    let mut i: usize = 0;
    while i < n
        invariant
            n == insts@.len(),
            i <= n,
            forall|a: int, b: int| 0 <= a < b < n && a < i ==> insts@[a] != insts@[b],
        decreases n - i,
    {
        let mut j: usize = i + 1;
        while j < n
            invariant
                n == insts@.len(),
                i < n,
                i + 1 <= j <= n,
                forall|a: int, b: int| 0 <= a < b < n && a < i ==> insts@[a] != insts@[b],
                forall|b: int| i < b < j ==> insts@[i as int] != insts@[b],
            decreases n - j,
        {
            if insts[i] == insts[j] {
                return false;
            }
            j = j + 1;
        }
        i = i + 1;
    }
    true
}

/// Executable twin of [`Program::recv_wf`].
fn check_recv(p: &Program, r: RecvType) -> (ok: bool)
    ensures
        ok == p.recv_wf(r),
{
    match r {
        RecvType::Concrete { type_id } => type_id < p.types.len(),
        RecvType::TraitObject { trait_id } => trait_id < p.traits.len(),
    }
}

} // verus!

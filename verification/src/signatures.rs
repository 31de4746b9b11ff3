//! Candidate enumeration for indirect calls: a call through a function
//! pointer or an `Fn`-trait object may reach any function or method of the
//! program whose signature token is structurally compatible with the
//! pointer's declared type. Over-approximation is the safety policy here:
//! spurious candidates are acceptable, a missing true target is not. The
//! scan order is fixed — free-function variants, then inherent methods, then
//! impl-provided methods, then trait default bodies — so reports are
//! deterministic.
use vstd::prelude::*;

use crate::lookup::spec_provides;
use crate::lookup::provides;
use crate::model::ImplDef;
use crate::model::Program;
use crate::model::TraitDef;
use crate::model::TypeDef;
use crate::target::Target;

verus! {

/// All variants of function `function`, as targets, for the first `n`
/// variant indices.
pub open spec fn spec_variant_targets(function: usize, n: int) -> Seq<Target>
    decreases n,
{
    if n <= 0 {
        Seq::empty()
    } else {
        spec_variant_targets(function, n - 1).push(
            Target::FreeVariant { function, variant: (n - 1) as usize },
        )
    }
}

/// Executable twin of [`spec_variant_targets`], for all variants of the
/// function.
pub fn variant_targets(function: usize, count: usize) -> (r: Vec<Target>)
    ensures
        r@ == spec_variant_targets(function, count as int),
{
    let mut r: Vec<Target> = Vec::new();
    let mut i: usize = 0;
    while i < count
        invariant
            i <= count,
            r@ == spec_variant_targets(function, i as int),
        decreases count - i,
    {
        r.push(Target::FreeVariant { function, variant: i });
        i = i + 1;
    }
    r
}

/// Targets among the first `upto` free functions whose signature token
/// matches: every variant of each matching function.
pub open spec fn spec_fn_sig_cands(p: Program, sig: u64, upto: int) -> Seq<Target>
    decreases upto,
{
    if upto <= 0 {
        Seq::empty()
    } else {
        let rest = spec_fn_sig_cands(p, sig, upto - 1);
        if p.functions@[upto - 1].sig == sig {
            rest + spec_variant_targets(
                (upto - 1) as usize,
                p.functions@[upto - 1].variants@.len() as int,
            )
        } else {
            rest
        }
    }
}

/// Targets among the first `upto` inherent methods of the type with index
/// `tyid` whose signature token matches.
pub open spec fn spec_type_sig_cands(ty: TypeDef, tyid: usize, sig: u64, upto: int) -> Seq<Target>
    decreases upto,
{
    if upto <= 0 {
        Seq::empty()
    } else {
        let rest = spec_type_sig_cands(ty, tyid, sig, upto - 1);
        if ty.methods@[upto - 1].sig == sig {
            rest.push(Target::InherentMethod { type_id: tyid, method: ty.methods@[upto - 1].name })
        } else {
            rest
        }
    }
}

/// Inherent-method targets among the first `upto` types.
pub open spec fn spec_types_sig_cands(p: Program, sig: u64, upto: int) -> Seq<Target>
    decreases upto,
{
    if upto <= 0 {
        Seq::empty()
    } else {
        spec_types_sig_cands(p, sig, upto - 1) + spec_type_sig_cands(
            p.types@[upto - 1],
            (upto - 1) as usize,
            sig,
            p.types@[upto - 1].methods@.len() as int,
        )
    }
}

/// Targets among the first `upto` method declarations of trait `tr` that
/// impl `im` (with index `k`) provides and whose signature token matches.
pub open spec fn spec_impl_sig_cands(tr: TraitDef, im: ImplDef, k: usize, sig: u64, upto: int) -> Seq<
    Target,
>
    decreases upto,
{
    if upto <= 0 {
        Seq::empty()
    } else {
        let rest = spec_impl_sig_cands(tr, im, k, sig, upto - 1);
        if tr.methods@[upto - 1].sig == sig && spec_provides(im, tr.methods@[upto - 1].name) {
            rest.push(Target::ImplMethod { impl_id: k, method: tr.methods@[upto - 1].name })
        } else {
            rest
        }
    }
}

/// Impl-provided targets among the first `upto` impls.
pub open spec fn spec_impls_sig_cands(p: Program, sig: u64, upto: int) -> Seq<Target>
    decreases upto,
{
    if upto <= 0 {
        Seq::empty()
    } else {
        let rest = spec_impls_sig_cands(p, sig, upto - 1);
        let im = p.impls@[upto - 1];
        if im.trait_id < p.traits@.len() {
            rest + spec_impl_sig_cands(
                p.traits@[im.trait_id as int],
                im,
                (upto - 1) as usize,
                sig,
                p.traits@[im.trait_id as int].methods@.len() as int,
            )
        } else {
            rest
        }
    }
}

/// Default-body targets among the first `upto` method declarations of the
/// trait with index `t`.
pub open spec fn spec_trait_sig_cands(tr: TraitDef, t: usize, sig: u64, upto: int) -> Seq<Target>
    decreases upto,
{
    if upto <= 0 {
        Seq::empty()
    } else {
        let rest = spec_trait_sig_cands(tr, t, sig, upto - 1);
        if tr.methods@[upto - 1].has_default && tr.methods@[upto - 1].sig == sig {
            rest.push(Target::TraitDefault { trait_id: t, method: tr.methods@[upto - 1].name })
        } else {
            rest
        }
    }
}

/// Default-body targets among the first `upto` traits.
pub open spec fn spec_traits_sig_cands(p: Program, sig: u64, upto: int) -> Seq<Target>
    decreases upto,
{
    if upto <= 0 {
        Seq::empty()
    } else {
        spec_traits_sig_cands(p, sig, upto - 1) + spec_trait_sig_cands(
            p.traits@[upto - 1],
            (upto - 1) as usize,
            sig,
            p.traits@[upto - 1].methods@.len() as int,
        )
    }
}

/// Every target of the program whose signature token equals `sig`, in the
/// fixed scan order.
pub open spec fn spec_sig_candidates(p: Program, sig: u64) -> Seq<Target> {
    spec_fn_sig_cands(p, sig, p.functions@.len() as int) + spec_types_sig_cands(
        p,
        sig,
        p.types@.len() as int,
    ) + spec_impls_sig_cands(p, sig, p.impls@.len() as int) + spec_traits_sig_cands(
        p,
        sig,
        p.traits@.len() as int,
    )
}

/// Executable twin of [`spec_sig_candidates`].
pub fn sig_candidates(p: &Program, sig: u64) -> (r: Vec<Target>)
    ensures
        r@ == spec_sig_candidates(*p, sig),
{
    let mut r: Vec<Target> = Vec::new();
    let mut i: usize = 0;
    while i < p.functions.len()
        invariant
            i <= p.functions@.len(),
            r@ == spec_fn_sig_cands(*p, sig, i as int),
        decreases p.functions@.len() - i,
    {
        if p.functions[i].sig == sig {
            let mut vt = variant_targets(i, p.functions[i].variants.len());
            r.append(&mut vt);
        }
        i = i + 1;
    }
    let ghost fn_part = r@;
    let mut t: usize = 0;
    while t < p.types.len()
        invariant
            t <= p.types@.len(),
            r@ == fn_part + spec_types_sig_cands(*p, sig, t as int),
        decreases p.types@.len() - t,
    {
        let mut j: usize = 0;
        let n = p.types[t].methods.len();
        while j < n
            invariant
                t < p.types@.len(),
                j <= n,
                n == p.types@[t as int].methods@.len(),
                r@ == fn_part + spec_types_sig_cands(*p, sig, t as int) + spec_type_sig_cands(
                    p.types@[t as int],
                    t,
                    sig,
                    j as int,
                ),
            decreases n - j,
        {
            let m = p.types[t].methods[j];
            if m.sig == sig {
                r.push(Target::InherentMethod { type_id: t, method: m.name });
            }
            j = j + 1;
        }
        t = t + 1;
    }
    let ghost ty_part = r@;
    let mut k: usize = 0;
    while k < p.impls.len()
        invariant
            k <= p.impls@.len(),
            r@ == ty_part + spec_impls_sig_cands(*p, sig, k as int),
        decreases p.impls@.len() - k,
    {
        let tid = p.impls[k].trait_id;
        if tid < p.traits.len() {
            let mut j: usize = 0;
            let n = p.traits[tid].methods.len();
            while j < n
                invariant
                    k < p.impls@.len(),
                    tid == p.impls@[k as int].trait_id,
                    tid < p.traits@.len(),
                    j <= n,
                    n == p.traits@[tid as int].methods@.len(),
                    r@ == ty_part + spec_impls_sig_cands(*p, sig, k as int) + spec_impl_sig_cands(
                        p.traits@[tid as int],
                        p.impls@[k as int],
                        k,
                        sig,
                        j as int,
                    ),
                decreases n - j,
            {
                let m = p.traits[tid].methods[j];
                if m.sig == sig && provides(&p.impls[k], m.name) {
                    r.push(Target::ImplMethod { impl_id: k, method: m.name });
                }
                j = j + 1;
            }
        }
        k = k + 1;
    }
    let ghost impl_part = r@;
    let mut t2: usize = 0;
    while t2 < p.traits.len()
        invariant
            t2 <= p.traits@.len(),
            r@ == impl_part + spec_traits_sig_cands(*p, sig, t2 as int),
        decreases p.traits@.len() - t2,
    {
        let mut j: usize = 0;
        let n = p.traits[t2].methods.len();
        while j < n
            invariant
                t2 < p.traits@.len(),
                j <= n,
                n == p.traits@[t2 as int].methods@.len(),
                r@ == impl_part + spec_traits_sig_cands(*p, sig, t2 as int) + spec_trait_sig_cands(
                    p.traits@[t2 as int],
                    t2,
                    sig,
                    j as int,
                ),
            decreases n - j,
        {
            let m = p.traits[t2].methods[j];
            if m.has_default && m.sig == sig {
                r.push(Target::TraitDefault { trait_id: t2, method: m.name });
            }
            j = j + 1;
        }
        t2 = t2 + 1;
    }
    proof {
        assert(r@ =~= spec_sig_candidates(*p, sig));
    }
    r
}

} // verus!

//! The program model that call resolution runs on: types with inherent
//! methods, traits with required or default-bodied methods, impls binding a
//! type to a trait, free functions with conditionally compiled variants, and
//! call sites with the traits that are in scope at each one.
//!
//! The model is built once and read-only afterwards; resolution is a pure
//! function over it. Entities refer to each other by index into the vectors
//! of `Program`, and method, module, feature and macro names are interned
//! symbols (`u64`).
use vstd::prelude::*;

verus! {

/// How a method takes its receiver. `Stat` is an associated function without
/// a `self` parameter.
#[derive(Clone, Copy, PartialEq, Eq, Structural, Debug)]
pub enum Receiver {
    Stat,
    SelfRef,
    SelfMut,
    SelfOwn,
}

/// Method lookup distinguishes only three receiver classes: by-reference
/// receivers are searched before by-value or by-mutable-reference ones, and
/// associated functions form a class of their own.
#[derive(Clone, Copy, PartialEq, Eq, Structural, Debug)]
pub enum ReceiverClass {
    Stat,
    ByRef,
    ByMutOrOwn,
}

impl Receiver {
    /// The lookup class of this receiver form.
    pub open spec fn spec_class(self) -> ReceiverClass {
        match self {
            Receiver::Stat => ReceiverClass::Stat,
            Receiver::SelfRef => ReceiverClass::ByRef,
            Receiver::SelfMut => ReceiverClass::ByMutOrOwn,
            Receiver::SelfOwn => ReceiverClass::ByMutOrOwn,
        }
    }

    /// Executable twin of [`Receiver::spec_class`].
    pub fn class(self) -> (r: ReceiverClass)
        ensures
            r == self.spec_class(),
    {
        match self {
            Receiver::Stat => ReceiverClass::Stat,
            Receiver::SelfRef => ReceiverClass::ByRef,
            Receiver::SelfMut => ReceiverClass::ByMutOrOwn,
            Receiver::SelfOwn => ReceiverClass::ByMutOrOwn,
        }
    }
}

/// Visibility of an inherent method. A private method is found by lookup only
/// from call sites in the defining module.
#[derive(Clone, Copy, PartialEq, Eq, Structural, Debug)]
pub enum Visibility {
    Public,
    Private,
}

/// An inherent method of a type: its interned name, receiver form,
/// visibility, and a signature token used for structural matching of
/// function-pointer calls.
#[derive(Clone, Copy, PartialEq, Eq, Structural, Debug)]
pub struct MethodDecl {
    pub name: u64,
    pub receiver: Receiver,
    pub visibility: Visibility,
    pub sig: u64,
}

/// A nominal type: its interned name, the module that defines it, and its
/// inherent methods in declaration order.
#[derive(Debug)]
pub struct TypeDef {
    pub name: u64,
    pub module: u64,
    pub methods: Vec<MethodDecl>,
}

/// A method declared by a trait: required (`has_default == false`) or given a
/// default body by the trait itself.
#[derive(Clone, Copy, PartialEq, Eq, Structural, Debug)]
pub struct TraitMethodDecl {
    pub name: u64,
    pub receiver: Receiver,
    pub has_default: bool,
    pub sig: u64,
}

/// A trait: its interned name, the traits it requires (supertraits, referred
/// to by index), and its method declarations.
#[derive(Debug)]
pub struct TraitDef {
    pub name: u64,
    pub supertraits: Vec<usize>,
    pub methods: Vec<TraitMethodDecl>,
}

/// An impl binding a type to a trait. `provided` lists the names of the trait
/// methods the impl gives a body; a default-bodied method missing from
/// `provided` falls back to the trait's default.
#[derive(Debug)]
pub struct ImplDef {
    pub type_id: usize,
    pub trait_id: usize,
    pub provided: Vec<u64>,
}

/// The feature predicate guarding one conditionally compiled variant of a
/// function: always compiled, or compiled exactly when the named feature has
/// the given value.
#[derive(Clone, Copy, PartialEq, Eq, Structural, Debug)]
pub enum Guard {
    Always,
    Feature { feature: usize, enabled: bool },
}

/// A free function: its interned name, a signature token, and one guard per
/// conditionally compiled variant. An unconditional function has the single
/// variant `Guard::Always`.
#[derive(Debug)]
pub struct FunctionDef {
    pub name: u64,
    pub sig: u64,
    pub variants: Vec<Guard>,
}

/// The static type of a call receiver: a concrete type, or a trait-object
/// reference that only promises the capability set of a trait.
#[derive(Clone, Copy, PartialEq, Eq, Structural, Debug)]
pub enum RecvType {
    Concrete { type_id: usize },
    TraitObject { trait_id: usize },
}

/// The callee of a call site, by syntactic form. `Qualified` covers
/// fully-qualified trait syntax (`<T as Trait>::m` and `Trait::m(recv)`);
/// `Method` is ordinary lookup syntax, with `instance` true for
/// `recv.m(...)` and false for associated-function syntax `Type::m(...)`;
/// `GenericParam` is a call on a receiver whose type is a generic parameter
/// bound by a trait, together with the concrete instantiations the program
/// uses; `Free` names a free function; `Pointer` and `FnObject` are indirect
/// calls through a function-pointer value or an `Fn`-trait object, known only
/// by the signature token of the callee.
#[derive(Debug)]
pub enum Callee {
    Qualified { trait_id: usize, method: u64, recv: RecvType },
    Method { recv: RecvType, method: u64, instance: bool },
    GenericParam { bound: usize, method: u64, instantiations: Vec<usize> },
    Free { function: usize },
    Pointer { sig: u64 },
    FnObject { sig: u64 },
}

/// Source location of a call site: interned module path and line number. The
/// module also decides which private inherent methods are visible.
#[derive(Clone, Copy, PartialEq, Eq, Structural, Debug)]
pub struct Loc {
    pub module: u64,
    pub line: u64,
}

/// A call site: the callee, the traits in scope (imported) at the site, the
/// macro it was expanded from if any, and its source location.
#[derive(Debug)]
pub struct CallSite {
    pub callee: Callee,
    pub scope: Vec<usize>,
    pub expanded_from: Option<u64>,
    pub loc: Loc,
}

/// The whole program model. Impl declaration order fixes the order of
/// dynamic-dispatch candidate sets, so reports are deterministic.
#[derive(Debug)]
pub struct Program {
    pub types: Vec<TypeDef>,
    pub traits: Vec<TraitDef>,
    pub impls: Vec<ImplDef>,
    pub functions: Vec<FunctionDef>,
    pub features: Vec<u64>,
}

impl TypeDef {
    /// No two inherent methods share a name and a receiver class.
    pub open spec fn wf(self) -> bool {
        forall|i: int, j: int|
            0 <= i < j < self.methods@.len() ==> !(self.methods@[i].name == self.methods@[j].name
                && self.methods@[i].receiver.spec_class()
                == self.methods@[j].receiver.spec_class())
    }
}

impl TraitDef {
    /// The trait's method names are distinct.
    pub open spec fn methods_distinct(self) -> bool {
        forall|i: int, j: int|
            0 <= i < j < self.methods@.len() ==> self.methods@[i].name != self.methods@[j].name
    }

    /// Whether the trait itself declares a method of the given name.
    pub open spec fn spec_declares(self, method: u64) -> bool {
        exists|i: int| 0 <= i < self.methods@.len() && self.methods@[i].name == method
    }

    /// A trait is well formed in program `p` when its method names are
    /// distinct and its supertraits point at strictly earlier traits, which
    /// rules out cycles in the supertrait relation.
    pub open spec fn wf(self, own_index: int) -> bool {
        &&& self.methods_distinct()
        &&& forall|k: int|
            0 <= k < self.supertraits@.len() ==> self.supertraits@[k] < own_index
    }
}

impl Program {
    /// An impl is well formed when its indices are in range, it provides only
    /// methods the trait declares, it provides every method the trait leaves
    /// without a default, and it lists no method twice.
    pub open spec fn impl_wf(self, im: ImplDef) -> bool {
        &&& im.type_id < self.types@.len()
        &&& im.trait_id < self.traits@.len()
        &&& forall|k: int|
            0 <= k < im.provided@.len() ==> self.traits@[im.trait_id as int].spec_declares(
                #[trigger] im.provided@[k],
            )
        &&& forall|i: int, j: int|
            0 <= i < j < im.provided@.len() ==> im.provided@[i] != im.provided@[j]
        &&& forall|k: int|
            0 <= k < self.traits@[im.trait_id as int].methods@.len()
                && !(#[trigger] self.traits@[im.trait_id as int].methods@[k]).has_default
                ==> im.provided@.contains(self.traits@[im.trait_id as int].methods@[k].name)
    }

    /// Two guards that test the same declared feature for opposite values.
    pub open spec fn opposite_guards(self, a: Guard, b: Guard) -> bool {
        match (a, b) {
            (
                Guard::Feature { feature: fa, enabled: ea },
                Guard::Feature { feature: fb, enabled: eb },
            ) => fa == fb && fa < self.features@.len() && ea == !eb,
            _ => false,
        }
    }

    /// A function is well formed when its variants are mutually exclusive and
    /// cover every configuration: either a single unconditional variant, or
    /// two variants guarded by the same feature, one for each value.
    pub open spec fn function_wf(self, f: FunctionDef) -> bool {
        ||| (f.variants@.len() == 1 && f.variants@[0] == Guard::Always)
        ||| (f.variants@.len() == 2 && self.opposite_guards(f.variants@[0], f.variants@[1]))
    }

    /// Whether some impl binds `type_id` to `trait_id`.
    pub open spec fn spec_has_impl(self, type_id: usize, trait_id: usize) -> bool {
        exists|k: int|
            0 <= k < self.impls@.len() && self.impls@[k].type_id == type_id
                && self.impls@[k].trait_id == trait_id
    }

    /// Every vector length of the model fits in `usize`, as it does for any
    /// model actually built from vectors. Stated once so that index-valued
    /// spec functions can be relating indices cast to `usize` without loss.
    pub open spec fn bounded(self) -> bool {
        &&& self.types@.len() <= usize::MAX
        &&& self.traits@.len() <= usize::MAX
        &&& self.impls@.len() <= usize::MAX
        &&& self.functions@.len() <= usize::MAX
        &&& self.features@.len() <= usize::MAX
        &&& forall|t: int|
            0 <= t < self.types@.len() ==> (#[trigger] self.types@[t]).methods@.len() <= usize::MAX
        &&& forall|t: int|
            0 <= t < self.traits@.len() ==> (#[trigger] self.traits@[t]).methods@.len()
                <= usize::MAX && self.traits@[t].supertraits@.len() <= usize::MAX
        &&& forall|k: int|
            0 <= k < self.impls@.len() ==> (#[trigger] self.impls@[k]).provided@.len()
                <= usize::MAX
        &&& forall|f: int|
            0 <= f < self.functions@.len() ==> (#[trigger] self.functions@[f]).variants@.len()
                <= usize::MAX
    }

    /// Well-formedness of the whole model, as stated by the model invariants:
    /// types have no duplicate inherent methods, traits are acyclic with
    /// distinct method names, impls are coherent (at most one per type and
    /// trait pair) and complete, an impl of a trait comes with impls of its
    /// supertraits, and every function covers every configuration with
    /// exactly one active variant.
    pub open spec fn wf(self) -> bool {
        &&& self.bounded()
        &&& forall|t: int| 0 <= t < self.types@.len() ==> (#[trigger] self.types@[t]).wf()
        &&& forall|t: int| 0 <= t < self.traits@.len() ==> (#[trigger] self.traits@[t]).wf(t)
        &&& forall|k: int| 0 <= k < self.impls@.len() ==> self.impl_wf(#[trigger] self.impls@[k])
        &&& forall|i: int, j: int|
            0 <= i < j < self.impls@.len() ==> !(self.impls@[i].type_id == self.impls@[j].type_id
                && self.impls@[i].trait_id == self.impls@[j].trait_id)
        &&& forall|k: int, s: int|
            0 <= k < self.impls@.len() && 0 <= s
                < self.traits@[self.impls@[k].trait_id as int].supertraits@.len()
                ==> #[trigger] self.spec_has_impl(
                self.impls@[k].type_id,
                self.traits@[self.impls@[k].trait_id as int].supertraits@[s],
            )
        &&& forall|f: int|
            0 <= f < self.functions@.len() ==> self.function_wf(#[trigger] self.functions@[f])
        &&& forall|i: int, j: int|
            0 <= i < j < self.features@.len() ==> self.features@[i] != self.features@[j]
    }

    /// Well-formedness of one call site against this program: every index the
    /// site carries is in range, a qualified or generic call names a method
    /// its trait declares, and the instantiation list of a generic call has
    /// no duplicates.
    pub open spec fn site_wf(self, s: CallSite) -> bool {
        &&& forall|k: int| 0 <= k < s.scope@.len() ==> s.scope@[k] < self.traits@.len()
        &&& match s.callee {
            Callee::Qualified { trait_id, method, recv } => {
                &&& trait_id < self.traits@.len()
                &&& self.traits@[trait_id as int].spec_declares(method)
                &&& self.recv_wf(recv)
            },
            Callee::Method { recv, method, instance } => self.recv_wf(recv),
            Callee::GenericParam { bound, method, instantiations } => {
                &&& bound < self.traits@.len()
                &&& self.traits@[bound as int].spec_declares(method)
                &&& forall|k: int|
                    0 <= k < instantiations@.len() ==> instantiations@[k] < self.types@.len()
                &&& forall|i: int, j: int|
                    0 <= i < j < instantiations@.len() ==> instantiations@[i]
                        != instantiations@[j]
            },
            Callee::Free { function } => function < self.functions@.len(),
            Callee::Pointer { sig } => true,
            Callee::FnObject { sig } => true,
        }
    }

    /// A receiver type is in range.
    pub open spec fn recv_wf(self, r: RecvType) -> bool {
        match r {
            RecvType::Concrete { type_id } => type_id < self.types@.len(),
            RecvType::TraitObject { trait_id } => trait_id < self.traits@.len(),
        }
    }
}

} // verus!

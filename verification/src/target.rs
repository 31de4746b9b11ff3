//! The vocabulary of resolution results: dispatch kinds, fully qualified
//! target identifiers, per-site errors, notes, and the resolution record
//! itself, with ghost views for stating contracts over mathematical
//! sequences.
use vstd::prelude::*;

verus! {

/// The dispatch kind assigned to a call site by the classifier, in the
/// priority order of the classification rules. `InherentStatic` also covers
/// calls of free functions with a single variant, the only other static call
/// with exactly one target and no trait involved.
#[derive(Clone, Copy, PartialEq, Eq, Structural, Debug)]
pub enum DispatchKind {
    InherentStatic,
    TraitStaticQualified,
    TraitStaticMethodLookup,
    TraitDefaultStatic,
    GenericMonomorphized,
    DynamicTraitObject,
    FunctionPointer,
    FnTraitObject,
    ConditionallyCompiled,
    MacroExpanded,
}

/// A fully qualified target: an inherent method of a type, a method body
/// provided by an impl, the default body a trait declares, or one
/// conditionally compiled variant of a free function.
#[derive(Clone, Copy, PartialEq, Eq, Structural, Debug)]
pub enum Target {
    InherentMethod { type_id: usize, method: u64 },
    ImplMethod { impl_id: usize, method: u64 },
    TraitDefault { trait_id: usize, method: u64 },
    FreeVariant { function: usize, variant: usize },
}

/// The errors that abort resolution of one call site: a tie between in-scope
/// traits during method lookup, and a call whose trait has no visible method
/// or no reachable implementer.
#[derive(Clone, Copy, PartialEq, Eq, Structural, Debug)]
pub enum SiteError {
    AmbiguousMethodLookup,
    NoImplementationFound,
}

/// A note attached to a resolution record: a function-pointer call whose
/// declared signature matched nothing (a soundness warning, not an error),
/// or the provenance of a macro-expanded call together with the dispatch
/// kind of its expansion.
#[derive(Clone, Copy, PartialEq, Eq, Structural, Debug)]
pub enum Note {
    PointerUnresolved,
    Expanded { macro_name: u64, underlying: DispatchKind },
}

/// One resolution: the dispatch kind and the ordered candidate target list,
/// with any notes.
#[derive(PartialEq, Eq, Debug)]
pub struct Resolution {
    pub dispatch: DispatchKind,
    pub candidates: Vec<Target>,
    pub notes: Vec<Note>,
}

/// The ghost view of a [`Resolution`], with sequences for the vectors.
pub struct ResolutionView {
    pub dispatch: DispatchKind,
    pub candidates: Seq<Target>,
    pub notes: Seq<Note>,
}

impl View for Resolution {
    type V = ResolutionView;

    open spec fn view(&self) -> ResolutionView {
        ResolutionView {
            dispatch: self.dispatch,
            candidates: self.candidates@,
            notes: self.notes@,
        }
    }
}

/// The outcome of resolving one call site: a non-empty list of resolutions
/// (one for most sites; one per concrete instantiation for a call on a
/// generic parameter), or the error that aborted the site.
#[derive(PartialEq, Eq, Debug)]
pub enum SiteOutcome {
    Resolved { resolutions: Vec<Resolution> },
    Failed { error: SiteError },
}

/// The ghost view of a [`SiteOutcome`].
pub enum SiteOutcomeView {
    Resolved { resolutions: Seq<ResolutionView> },
    Failed { error: SiteError },
}

impl View for SiteOutcome {
    type V = SiteOutcomeView;

    open spec fn view(&self) -> SiteOutcomeView {
        match self {
            SiteOutcome::Resolved { resolutions } => SiteOutcomeView::Resolved {
                resolutions: resolutions@.map_values(|r: Resolution| r@),
            },
            SiteOutcome::Failed { error } => SiteOutcomeView::Failed { error: *error },
        }
    }
}

impl SiteOutcome {
    /// Whether the site was aborted by a method-lookup tie.
    pub open spec fn spec_is_ambiguous(self) -> bool {
        self@ == (SiteOutcomeView::Failed { error: SiteError::AmbiguousMethodLookup })
    }

    /// Executable twin of [`SiteOutcome::spec_is_ambiguous`].
    pub fn is_ambiguous(&self) -> (r: bool)
        ensures
            r == self.spec_is_ambiguous(),
    {
        match self {
            SiteOutcome::Failed { error: SiteError::AmbiguousMethodLookup } => true,
            _ => false,
        }
    }

    /// Whether the site resolved without error.
    pub open spec fn spec_is_resolved(self) -> bool {
        self@ is Resolved
    }

    /// Executable twin of [`SiteOutcome::spec_is_resolved`].
    pub fn is_resolved(&self) -> (r: bool)
        ensures
            r == self.spec_is_resolved(),
    {
        match self {
            SiteOutcome::Resolved { .. } => true,
            SiteOutcome::Failed { .. } => false,
        }
    }
}

} // verus!

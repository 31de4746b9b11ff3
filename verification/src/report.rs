//! The resolution report: one record per call site, in site order, each
//! carrying the site's source location and its outcome. A run in
//! single-configuration mode is rejected up front, before any site is
//! resolved, when the configuration names an undeclared feature; per-site
//! errors are collected into the report and never abort the batch.
use vstd::prelude::*;

use crate::config::Mode;
use crate::config::first_unknown;
use crate::config::lemma_first_unknown;
use crate::config::spec_config_valid;
use crate::config::spec_first_unknown;
use crate::model::CallSite;
use crate::model::Loc;
use crate::model::Program;
use crate::resolve::resolve_site;
use crate::resolve::spec_resolve_site;
use crate::target::SiteOutcome;
use crate::target::SiteOutcomeView;

verus! {

/// The error that aborts a whole run before resolution starts: a
/// single-configuration request naming a feature the program does not
/// declare.
#[derive(Clone, Copy, PartialEq, Eq, Structural, Debug)]
pub enum RunError {
    UnknownFeature { feature: u64 },
}

/// One record of the report: the call site's source location and the outcome
/// of resolving it.
#[derive(PartialEq, Eq, Debug)]
pub struct SiteReport {
    pub loc: Loc,
    pub outcome: SiteOutcome,
}

/// The ghost view of a [`SiteReport`].
pub struct SiteReportView {
    pub loc: Loc,
    pub outcome: SiteOutcomeView,
}

impl View for SiteReport {
    type V = SiteReportView;

    open spec fn view(&self) -> SiteReportView {
        SiteReportView { loc: self.loc, outcome: self.outcome@ }
    }
}

/// A whole resolution report, one record per call site in site order.
#[derive(PartialEq, Eq, Debug)]
pub struct Report {
    pub records: Vec<SiteReport>,
}

impl View for Report {
    type V = Seq<SiteReportView>;

    open spec fn view(&self) -> Seq<SiteReportView> {
        self.records@.map_values(|r: SiteReport| r@)
    }
}

/// The record that resolving one call site produces.
pub open spec fn spec_site_report(p: Program, mode: Mode, s: CallSite) -> SiteReportView {
    SiteReportView { loc: s.loc, outcome: spec_resolve_site(p, mode, s) }
}

/// The records of the first `upto` call sites.
pub open spec fn spec_reports(p: Program, mode: Mode, sites: Seq<CallSite>, upto: int) -> Seq<
    SiteReportView,
>
    decreases upto,
{
    if upto <= 0 {
        Seq::empty()
    } else {
        spec_reports(p, mode, sites, upto - 1).push(spec_site_report(p, mode, sites[upto - 1]))
    }
}

/// The report covers the batch: one record per call site, in site order,
/// each carrying its site's source location and the pure resolution of that
/// site.
pub proof fn lemma_reports_cover_sites(p: Program, mode: Mode, sites: Seq<CallSite>, upto: int)
    requires
        0 <= upto <= sites.len(),
    ensures
        spec_reports(p, mode, sites, upto).len() == upto,
        forall|k: int|
            0 <= k < upto ==> #[trigger] spec_reports(p, mode, sites, upto)[k]
                == spec_site_report(p, mode, sites[k]),
    decreases upto,
{
    if upto > 0 {
        lemma_reports_cover_sites(p, mode, sites, upto - 1);
    }
}

/// Whether the mode is acceptable for the program: configuration-agnostic
/// mode always is; single-configuration mode requires every flag to name a
/// declared feature.
pub open spec fn spec_mode_valid(p: Program, mode: Mode) -> bool {
    match mode {
        Mode::Single { config } => spec_config_valid(p, config),
        Mode::AllConfigs => true,
    }
}

/// The feature name reported when the mode is rejected: the first flag of
/// the configuration that names no declared feature.
pub open spec fn spec_mode_error(p: Program, mode: Mode) -> Option<u64> {
    match mode {
        Mode::Single { config } => spec_first_unknown(p, config.flags@, 0),
        Mode::AllConfigs => None,
    }
}

/// Whether any record of the report carries a per-site error. A process
/// wrapping the resolver exits non-zero exactly when this holds.
pub open spec fn spec_has_errors(records: Seq<SiteReportView>) -> bool {
    exists|k: int| 0 <= k < records.len() && records[k].outcome is Failed
}

impl Report {
    /// Executable twin of [`spec_has_errors`].
    pub fn has_errors(&self) -> (r: bool)
        ensures
            r == spec_has_errors(self@),
    {
        let mut i: usize = 0;
        while i < self.records.len()
            invariant
                i <= self.records@.len(),
                forall|k: int| 0 <= k < i ==> !((#[trigger] self@[k]).outcome is Failed),
            decreases self.records@.len() - i,
        {
            if !self.records[i].outcome.is_resolved() {
                assert(self@[i as int].outcome is Failed);
                return true;
            }
            i = i + 1;
        }
        false
    }
}

/// Resolves every call site of the batch under the given mode. A
/// single-configuration request naming an undeclared feature is rejected
/// whole, with the first such feature, before any site is resolved;
/// otherwise the report holds one record per site, in order, each the pure
/// resolution of its site.
pub fn resolve_all(p: &Program, mode: &Mode, sites: &Vec<CallSite>) -> (r: Result<Report, RunError>)
    requires
        forall|k: int| 0 <= k < sites@.len() ==> p.site_wf(#[trigger] sites@[k]),
    ensures
        match r {
            Result::Ok(report) => spec_mode_valid(*p, *mode) && report@ == spec_reports(
                *p,
                *mode,
                sites@,
                sites@.len() as int,
            ),
            Result::Err(e) => !spec_mode_valid(*p, *mode) && e == (RunError::UnknownFeature {
                feature: spec_mode_error(*p, *mode)->Some_0,
            }),
        },
{
    match mode {
        Mode::Single { config } => {
            match first_unknown(p, &config.flags, 0) {
                Some(feature) => {
                    proof {
                        lemma_first_unknown(*p, config.flags@, 0);
                    }
                    return Result::Err(RunError::UnknownFeature { feature });
                },
                None => {
                    proof {
                        lemma_first_unknown(*p, config.flags@, 0);
                    }
                },
            }
        },
        Mode::AllConfigs => {},
    }
    let mut records: Vec<SiteReport> = Vec::new();
    let mut i: usize = 0;
    while i < sites.len()
        invariant
            i <= sites@.len(),
            forall|k: int| 0 <= k < sites@.len() ==> p.site_wf(#[trigger] sites@[k]),
            records@.map_values(|r: SiteReport| r@) =~= spec_reports(*p, *mode, sites@, i as int),
        decreases sites@.len() - i,
    {
        let outcome = resolve_site(p, mode, &sites[i]);
        let rec = SiteReport { loc: sites[i].loc, outcome };
        let ghost old_views = records@.map_values(|r: SiteReport| r@);
        let ghost rec_view = rec@;
        records.push(rec);
        proof {
            assert(records@.map_values(|r: SiteReport| r@) =~= old_views.push(rec_view));
        }
        i = i + 1;
    }
    Result::Ok(Report { records })
}

} // verus!

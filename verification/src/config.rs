//! Build configurations: feature flags, guard evaluation, and the two
//! resolution modes. In single-configuration mode conditionally compiled
//! call sites collapse to the one variant whose guard holds; in
//! configuration-agnostic mode every variant is reported together with its
//! guard. A configuration that names an undeclared feature is rejected
//! before any resolution work begins.
use vstd::prelude::*;

use crate::model::FunctionDef;
use crate::model::Guard;
use crate::model::Program;

verus! {

/// One feature flag of a configuration: an interned feature name and its
/// value.
#[derive(Clone, Copy, PartialEq, Eq, Structural, Debug)]
pub struct FeatureFlag {
    pub name: u64,
    pub value: bool,
}

/// A build configuration: the feature flags the caller supplies. A feature
/// that is not listed counts as disabled.
#[derive(Debug)]
pub struct Config {
    pub flags: Vec<FeatureFlag>,
}

/// The output mode of a resolution run: collapse conditionally compiled
/// sites under one configuration, or report the union over all
/// configurations.
#[derive(Debug)]
pub enum Mode {
    Single { config: Config },
    AllConfigs,
}

/// The value of the first flag with the given name, if any.
pub open spec fn spec_flag_value(flags: Seq<FeatureFlag>, from: int, name: u64) -> Option<bool>
    decreases flags.len() - from,
{
    if from < 0 || from >= flags.len() {
        None
    } else if flags[from].name == name {
        Some(flags[from].value)
    } else {
        spec_flag_value(flags, from + 1, name)
    }
}

/// Executable twin of [`spec_flag_value`].
pub fn flag_value(flags: &Vec<FeatureFlag>, from: usize, name: u64) -> (r: Option<bool>)
    requires
        from <= flags@.len(),
    ensures
        r == spec_flag_value(flags@, from as int, name),
    decreases flags@.len() - from,
{
    if from == flags.len() {
        None
    } else if flags[from].name == name {
        Some(flags[from].value)
    } else {
        flag_value(flags, from + 1, name)
    }
}

/// The value a configuration gives to the declared feature with index
/// `feature` in `p.features`: the flag's value if listed, disabled otherwise.
pub open spec fn spec_feature_value(p: Program, cfg: Config, feature: usize) -> bool {
    if feature < p.features@.len() {
        match spec_flag_value(cfg.flags@, 0, p.features@[feature as int]) {
            Some(v) => v,
            None => false,
        }
    } else {
        false
    }
}

/// Executable twin of [`spec_feature_value`].
pub fn feature_value(p: &Program, cfg: &Config, feature: usize) -> (r: bool)
    ensures
        r == spec_feature_value(*p, *cfg, feature),
{
    if feature < p.features.len() {
        match flag_value(&cfg.flags, 0, p.features[feature]) {
            Some(v) => v,
            None => false,
        }
    } else {
        false
    }
}

/// Whether a variant guard holds under a configuration.
pub open spec fn spec_guard_holds(p: Program, g: Guard, cfg: Config) -> bool {
    match g {
        Guard::Always => true,
        Guard::Feature { feature, enabled } => spec_feature_value(p, cfg, feature) == enabled,
    }
}

/// Executable twin of [`spec_guard_holds`].
pub fn guard_holds(p: &Program, g: Guard, cfg: &Config) -> (r: bool)
    ensures
        r == spec_guard_holds(*p, g, *cfg),
{
    match g {
        Guard::Always => true,
        Guard::Feature { feature, enabled } => feature_value(p, cfg, feature) == enabled,
    }
}

/// The first variant of `f` at or after index `from` whose guard holds under
/// the configuration, if any.
pub open spec fn spec_first_active(p: Program, f: FunctionDef, cfg: Config, from: int) -> Option<
    usize,
>
    decreases f.variants@.len() - from,
{
    if from < 0 || from >= f.variants@.len() {
        None
    } else if spec_guard_holds(p, f.variants@[from], cfg) {
        Some(from as usize)
    } else {
        spec_first_active(p, f, cfg, from + 1)
    }
}

/// Executable twin of [`spec_first_active`].
pub fn first_active(p: &Program, f: &FunctionDef, cfg: &Config, from: usize) -> (r: Option<usize>)
    requires
        from <= f.variants@.len(),
    ensures
        r == spec_first_active(*p, *f, *cfg, from as int),
    decreases f.variants@.len() - from,
{
    if from == f.variants.len() {
        None
    } else if guard_holds(p, f.variants[from], cfg) {
        Some(from)
    } else {
        first_active(p, f, cfg, from + 1)
    }
}

/// A well-formed function has an active variant under every configuration:
/// the single unconditional variant, or the one of the two opposite guards
/// whose feature test holds.
pub proof fn lemma_active_exists(p: Program, f: FunctionDef, cfg: Config)
    requires
        p.function_wf(f),
    ensures
        spec_first_active(p, f, cfg, 0) is Some,
        spec_first_active(p, f, cfg, 0)->Some_0 < f.variants@.len(),
{
    reveal_with_fuel(spec_first_active, 3);
    if f.variants@.len() == 1 {
        assert(spec_guard_holds(p, f.variants@[0], cfg));
    } else {
        if !spec_guard_holds(p, f.variants@[0], cfg) {
            assert(spec_guard_holds(p, f.variants@[1], cfg));
        }
    }
}

/// A configuration is valid for a program when every flag it lists names a
/// declared feature.
pub open spec fn spec_config_valid(p: Program, cfg: Config) -> bool {
    forall|k: int|
        0 <= k < cfg.flags@.len() ==> p.features@.contains(#[trigger] cfg.flags@[k].name)
}

/// The first flag at or after index `from` that names no declared feature:
/// the witness reported by `UnknownFeature`.
pub open spec fn spec_first_unknown(p: Program, flags: Seq<FeatureFlag>, from: int) -> Option<u64>
    decreases flags.len() - from,
{
    if from < 0 || from >= flags.len() {
        None
    } else if !p.features@.contains(flags[from].name) {
        Some(flags[from].name)
    } else {
        spec_first_unknown(p, flags, from + 1)
    }
}

/// No unknown flag from `from` on means every flag from `from` on is
/// declared, and the first unknown flag is indeed undeclared.
pub proof fn lemma_first_unknown(p: Program, flags: Seq<FeatureFlag>, from: int)
    requires
        0 <= from <= flags.len(),
    ensures
        spec_first_unknown(p, flags, from) is None <==> (forall|k: int|
            from <= k < flags.len() ==> p.features@.contains(#[trigger] flags[k].name)),
    decreases flags.len() - from,
{
    if from < flags.len() {
        lemma_first_unknown(p, flags, from + 1);
    }
}

/// Whether any declared feature equals `name`.
fn features_contain(p: &Program, name: u64) -> (r: bool)
    ensures
        r == p.features@.contains(name),
{
    let mut i: usize = 0;
    while i < p.features.len()
        invariant
            i <= p.features@.len(),
            forall|k: int| 0 <= k < i ==> p.features@[k] != name,
        decreases p.features@.len() - i,
    {
        if p.features[i] == name {
            return true;
        }
        i = i + 1;
    }
    false
}

/// Executable twin of [`spec_first_unknown`]: the first flag naming no
/// declared feature.
pub fn first_unknown(p: &Program, flags: &Vec<FeatureFlag>, from: usize) -> (r: Option<u64>)
    requires
        from <= flags@.len(),
    ensures
        r == spec_first_unknown(*p, flags@, from as int),
    decreases flags@.len() - from,
{
    if from == flags.len() {
        None
    } else if !features_contain(p, flags[from].name) {
        Some(flags[from].name)
    } else {
        first_unknown(p, flags, from + 1)
    }
}

} // verus!

//! The lints that carry the checker's reports, their groups and levels.
use vstd::prelude::*;
use crate::diag::LintId;

verus! {

/// The description of a lint, as listed among the host's lints.
#[derive(Clone, Debug, PartialEq)]
pub struct Lint {
    pub name: &'static str,
    pub group: &'static str,
    pub desc: &'static str,
    pub deprecation: Option<&'static str>,
    pub module: &'static str,
}

/// How severely the host treats a lint's reports, from mildest to harshest.
#[derive(Clone, Copy, Debug, PartialEq, Eq, Structural, PartialOrd, Ord)]
pub enum Level {
    Allow,
    Warn,
    Deny,
}

/// The groups that lints are filed under.
#[derive(Clone, Copy, Debug, PartialEq, Eq, Structural)]
pub enum LintGroup {
    Correctness,
    Style,
    Complexity,
    Perf,
    Restriction,
    Pedantic,
    Nursery,
    Cargo,
    HacspecLang,
}

/// The level each group starts at.
pub open spec fn group_level(g: LintGroup) -> Level {
    match g {
        LintGroup::Correctness => Level::Deny,
        LintGroup::Style | LintGroup::Complexity | LintGroup::Perf | LintGroup::HacspecLang => Level::Warn,
        LintGroup::Restriction | LintGroup::Pedantic | LintGroup::Nursery | LintGroup::Cargo => Level::Allow,
    }
}

/// The group each of the checker's lints is filed under: subset membership
/// under the pedantic group, macro invocations under a group of their own.
pub open spec fn lint_group(l: LintId) -> LintGroup {
    match l {
        LintId::Hacspec => LintGroup::Pedantic,
        LintId::HacspecMacros => LintGroup::HacspecLang,
    }
}

/// The name of each group.
pub open spec fn group_name(g: LintGroup) -> Seq<char> {
    match g {
        LintGroup::Correctness => "correctness"@,
        LintGroup::Style => "style"@,
        LintGroup::Complexity => "complexity"@,
        LintGroup::Perf => "perf"@,
        LintGroup::Restriction => "restriction"@,
        LintGroup::Pedantic => "pedantic"@,
        LintGroup::Nursery => "nursery"@,
        LintGroup::Cargo => "cargo"@,
        LintGroup::HacspecLang => "hacspec_lang"@,
    }
}

/// The name of each of the checker's lints.
pub open spec fn lint_name(l: LintId) -> Seq<char> {
    match l {
        LintId::Hacspec => "hacspec"@,
        LintId::HacspecMacros => "hacspec_macros"@,
    }
}

impl LintGroup {
    /// The level this group starts at.
    pub fn default_level(&self) -> (r: Level)
        ensures
            r == group_level(*self),
    {
        match self {
            LintGroup::Correctness => Level::Deny,
            LintGroup::Style => Level::Warn,
            LintGroup::Complexity => Level::Warn,
            LintGroup::Perf => Level::Warn,
            LintGroup::HacspecLang => Level::Warn,
            LintGroup::Restriction => Level::Allow,
            LintGroup::Pedantic => Level::Allow,
            LintGroup::Nursery => Level::Allow,
            LintGroup::Cargo => Level::Allow,
        }
    }

    /// The group's name.
    pub fn name(&self) -> (r: &'static str)
        ensures
            r@ == group_name(*self),
    {
        match self {
            LintGroup::Correctness => "correctness",
            LintGroup::Style => "style",
            LintGroup::Complexity => "complexity",
            LintGroup::Perf => "perf",
            LintGroup::Restriction => "restriction",
            LintGroup::Pedantic => "pedantic",
            LintGroup::Nursery => "nursery",
            LintGroup::Cargo => "cargo",
            LintGroup::HacspecLang => "hacspec_lang",
        }
    }
}

impl LintId {
    /// The group this lint is filed under.
    pub fn group(&self) -> (r: LintGroup)
        ensures
            r == lint_group(*self),
    {
        match self {
            LintId::Hacspec => LintGroup::Pedantic,
            LintId::HacspecMacros => LintGroup::HacspecLang,
        }
    }

    /// The level this lint starts at, that of its group.
    pub fn default_level(&self) -> (r: Level)
        ensures
            r == group_level(lint_group(*self)),
    {
        self.group().default_level()
    }

    /// The listing of this lint.
    pub fn lint(&self) -> (r: Lint)
        ensures
            r.name@ == lint_name(*self),
            r.group@ == group_name(lint_group(*self)),
            r.module@ == lint_name(*self),
            r.deprecation is None,
    {
        match self {
            LintId::Hacspec => Lint {
                name: "hacspec",
                group: LintGroup::Pedantic.name(),
                desc: "checks whether the code belongs to the hacspec subset of Rust",
                deprecation: None,
                module: "hacspec",
            },
            LintId::HacspecMacros => Lint {
                name: "hacspec_macros",
                group: LintGroup::HacspecLang.name(),
                desc: "checks macro invocations and adds declared types to the authorized ones",
                deprecation: None,
                module: "hacspec_macros",
            },
        }
    }
}

} // verus!

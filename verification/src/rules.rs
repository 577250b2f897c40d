//! Platform facts and the rule-evaluation logic that gates libraries and
//! conditional arguments.

use vstd::prelude::*;
use crate::text::{contains_sub, spec_contains, str_eq};
use crate::version::{Library, OsRule, Rule};

verus! {

/// Platform facts threaded explicitly through planning and assembly.
#[derive(Debug, Clone)]
pub struct Platform {
    /// OS name as the manifest writes it: "windows", "osx" or "linux".
    pub os: String,
    /// Architecture name (e.g. "x86_64", "aarch64").
    pub arch: String,
}

impl Platform {
    /// Create platform facts from an OS name and an architecture name.
    pub fn new(os: String, arch: String) -> (r: Self)
        ensures
            r.os == os,
            r.arch == arch,
    {
        Platform { os, arch }
    }
}

/// The OS predicate of a rule matches the given OS name. Version and
/// architecture predicates are left open and always match.
pub open spec fn os_rule_matches(osr: OsRule, os: Seq<char>) -> bool {
    match osr.name {
        Option::None => true,
        Option::Some(n) => n@ == os,
    }
}

/// The whole predicate of a rule matches the given OS name. Feature
/// predicates are left open and always match.
pub open spec fn rule_matches(r: Rule, os: Seq<char>) -> bool {
    match r.os {
        Option::None => true,
        Option::Some(osr) => os_rule_matches(osr, os),
    }
}

/// Ordered rule evaluation from position `i`: the first rule whose predicate
/// matches decides, "allow" for true and "disallow" for false; a matching
/// rule with any other action is skipped; if no rule decides, the default
/// is allow.
pub open spec fn eval_rules_from(rules: Seq<Rule>, os: Seq<char>, i: int) -> bool
    decreases rules.len() - i,
{
    if i < 0 || i >= rules.len() {
        true
    } else if rule_matches(rules[i], os) && rules[i].action@ == "allow"@ {
        true
    } else if rule_matches(rules[i], os) && rules[i].action@ == "disallow"@ {
        false
    } else {
        eval_rules_from(rules, os, i + 1)
    }
}

/// Ordered rule evaluation: first match decides, default allow.
pub open spec fn spec_eval_rules(rules: Seq<Rule>, os: Seq<char>) -> bool {
    eval_rules_from(rules, os, 0)
}

/// A library applies when it has no rule list or its rule list evaluates
/// to allow.
pub open spec fn library_allowed(lib: Library, os: Seq<char>) -> bool {
    match lib.rules {
        Option::None => true,
        Option::Some(rules) => spec_eval_rules(rules@, os),
    }
}

/// Evaluate the OS predicate of one rule against the platform.
pub fn evaluate_os_rule(osr: &OsRule, platform: &Platform) -> (r: bool)
    ensures
        r == os_rule_matches(*osr, platform.os@),
{
    match &osr.name {
        Option::None => true,
        Option::Some(n) => str_eq(n.as_str(), platform.os.as_str()),
    }
}

/// Evaluate an ordered rule list against the platform: the first rule whose
/// predicate matches decides the outcome, and the default is allow.
pub fn evaluate_rules(rules: &Vec<Rule>, platform: &Platform) -> (r: bool)
    ensures
        r == spec_eval_rules(rules@, platform.os@),
{
    let n = rules.len();
    for i in 0..n
        invariant
            n == rules@.len(),
            spec_eval_rules(rules@, platform.os@) == eval_rules_from(
                rules@,
                platform.os@,
                i as int,
            ),
    {
        let matches = match &rules[i].os {
            Option::None => true,
            Option::Some(osr) => evaluate_os_rule(osr, platform),
        };
        if matches {
            if str_eq(rules[i].action.as_str(), "allow") {
                return true;
            }
            if str_eq(rules[i].action.as_str(), "disallow") {
                return false;
            }
        }
    }
    true
}

/// A library applies on the platform when it has no rule list or its rule
/// list evaluates to allow.
pub fn library_applies(lib: &Library, platform: &Platform) -> (r: bool)
    ensures
        r == library_allowed(*lib, platform.os@),
{
    match &lib.rules {
        Option::None => true,
        Option::Some(rules) => evaluate_rules(rules, platform),
    }
}

/// The classifier names a native bundle for the given OS: "natives-windows"
/// on windows, "natives-osx" or "natives-macos" on osx, "natives-linux"
/// otherwise.
pub open spec fn spec_native_for_os(classifier: Seq<char>, os: Seq<char>) -> bool {
    if os == "windows"@ {
        spec_contains(classifier, "natives-windows"@)
    } else if os == "osx"@ {
        spec_contains(classifier, "natives-osx"@) || spec_contains(classifier, "natives-macos"@)
    } else {
        spec_contains(classifier, "natives-linux"@)
    }
}

/// Whether the classifier names a native bundle for the platform's OS.
pub fn is_native_for_os(classifier: &str, platform: &Platform) -> (r: bool)
    ensures
        r == spec_native_for_os(classifier@, platform.os@),
{
    if str_eq(platform.os.as_str(), "windows") {
        contains_sub(classifier, "natives-windows")
    } else if str_eq(platform.os.as_str(), "osx") {
        contains_sub(classifier, "natives-osx") || contains_sub(classifier, "natives-macos")
    } else {
        contains_sub(classifier, "natives-linux")
    }
}

} // verus!

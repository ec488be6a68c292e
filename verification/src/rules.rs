//! Platform applicability rules.
//!
//! A library declares an ordered list of rules, each an allow or disallow
//! action guarded by an optional operating-system and architecture
//! condition. The list is evaluated with last-match-wins semantics and
//! defaults to allow when no rule matches.

use vstd::prelude::*;

verus! {

/// The operating-system families the engine distinguishes.
#[derive(Clone, Copy, Debug, PartialEq, Eq, Structural)]
pub enum OsName {
    Linux,
    Macos,
    Windows,
}

/// The processor architectures the engine distinguishes.
#[derive(Clone, Copy, Debug, PartialEq, Eq, Structural)]
pub enum ArchName {
    X86_64,
    Aarch64,
    Arm,
}

/// The platform the engine is running on, resolved once at startup and
/// passed in wherever a platform-dependent decision is made.
#[derive(Clone, Copy, Debug, PartialEq, Eq, Structural)]
pub struct Platform {
    pub os: OsName,
    pub arch: ArchName,
}

/// What a matching rule decides.
#[derive(Clone, Copy, Debug, PartialEq, Eq, Structural)]
pub enum RuleAction {
    Allow,
    Disallow,
}

/// One applicability rule: an action guarded by optional conditions.
/// A missing condition matches any value.
#[derive(Clone, Copy, Debug, PartialEq, Eq)]
pub struct Rule {
    pub action: RuleAction,
    pub os: Option<OsName>,
    pub arch: Option<ArchName>,
}

/// Does `rule`'s condition hold on `platform`?
pub open spec fn rule_matches(rule: Rule, platform: Platform) -> bool {
    &&& match rule.os {
        Option::None => true,
        Option::Some(os) => os == platform.os,
    }
    &&& match rule.arch {
        Option::None => true,
        Option::Some(arch) => arch == platform.arch,
    }
}

/// The verdict of a rule list on a platform: the action of the last matching
/// rule, or allow when no rule matches.
pub open spec fn rules_verdict(rules: Seq<Rule>, platform: Platform) -> bool
    decreases rules.len(),
{
    if rules.len() == 0 {
        true
    } else if rule_matches(rules.last(), platform) {
        rules.last().action == RuleAction::Allow
    } else {
        rules_verdict(rules.drop_last(), platform)
    }
}

/// Does `rule`'s condition hold on `platform`?
pub fn rule_applies(rule: &Rule, platform: &Platform) -> (r: bool)
    ensures
        r == rule_matches(*rule, *platform),
{
    let os_ok = match rule.os {
        Option::None => true,
        Option::Some(os) => os == platform.os,
    };
    let arch_ok = match rule.arch {
        Option::None => true,
        Option::Some(arch) => arch == platform.arch,
    };
    os_ok && arch_ok
}

/// Evaluate a rule list on a platform, last match wins, defaulting to allow.
pub fn is_rule_list_valid(rules: &Vec<Rule>, platform: &Platform) -> (r: bool)
    ensures
        r == rules_verdict(rules@, *platform),
{
    let mut verdict = true;
    let mut i: usize = 0;
    while i < rules.len()
        invariant
            i <= rules@.len(),
            verdict == rules_verdict(rules@.take(i as int), *platform),
        decreases rules@.len() - i,
    {
        let rule = &rules[i];
        if rule_applies(rule, platform) {
            verdict = match rule.action {
                RuleAction::Allow => true,
                RuleAction::Disallow => false,
            };
        }
        proof {
            assert(rules@.take(i + 1).drop_last() =~= rules@.take(i as int));
            assert(rules@.take(i + 1).last() == rules@[i as int]);
        }
        i += 1;
    }
    proof {
        assert(rules@.take(rules@.len() as int) =~= rules@);
    }
    verdict
}

/// The natives classifier token expected in an artifact path on `platform`.
pub open spec fn spec_natives_token(platform: Platform) -> Seq<char> {
    match platform.os {
        OsName::Linux => "natives-linux"@,
        OsName::Windows => "natives-windows"@,
        OsName::Macos => if platform.arch == ArchName::Aarch64 {
            "natives-macos-arm64"@
        } else {
            "natives-macos"@
        },
    }
}

/// The natives classifier token expected in an artifact path on `platform`.
pub fn natives_token(platform: &Platform) -> (r: &'static str)
    ensures
        r@ == spec_natives_token(*platform),
{
    match platform.os {
        OsName::Linux => "natives-linux",
        OsName::Windows => "natives-windows",
        OsName::Macos => if platform.arch == ArchName::Aarch64 {
            "natives-macos-arm64"
        } else {
            "natives-macos"
        },
    }
}

} // verus!

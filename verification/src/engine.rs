//! The filter engine: block-or-allow decisions over a compiled rule set.
//!
//! The decision is a pure function of the rule set and the classified
//! request: block exactly when some block rule matches and no exception rule
//! matches. A matching exception always overrides a matching block rule,
//! wherever either stands in the list. A rule scoped to a resource type
//! matches only requests of that type.
//!
//! The engine holds no lock and keeps no per-request state: `decide` reads
//! the rule set through a shared reference, so any number of concurrent
//! callers may consult one engine at once.

use vstd::prelude::*;

use crate::chars::chars_of;
use crate::matching::{find_match, pattern_occurs};
use crate::request::{
    is_well_formed_url, is_well_formed_url_str, spec_type_from_name, type_from_name,
    ClassifiedRequest, ResourceType, SpecRequest,
};
use crate::rules::{RuleCompileError, RuleSet, SpecRule};

verus! {

/// A rule scope admits a request's resource type: an unscoped rule admits
/// every type, a scoped rule only its own.
pub open spec fn scope_allows(scope: Option<ResourceType>, t: ResourceType) -> bool {
    match scope {
        None => true,
        Some(s) => s == t,
    }
}

/// The rule matches the request: its scope admits the request's resource
/// type and its pattern occurs in the target URL.
pub open spec fn rule_matches(r: SpecRule, q: SpecRequest) -> bool {
    scope_allows(r.scope, q.rtype) && pattern_occurs(r.pattern, r.domain_anchor, q.target)
}

/// The decision: block exactly when some block rule matches and no
/// exception rule matches.
pub open spec fn decide_spec(rules: Seq<SpecRule>, q: SpecRequest) -> bool {
    (exists|i: int| 0 <= i < rules.len() && !rules[i].exception && rule_matches(rules[i], q))
        && !(exists|j: int| 0 <= j < rules.len() && rules[j].exception && rule_matches(rules[j], q))
}

/// The classified request the engine is consulted with when the rendering
/// surface hands over a raw URL, a source URL, and a request-type name.
pub open spec fn classified_as(target: Seq<char>, source: Seq<char>, kind_name: Seq<char>) -> SpecRequest {
    SpecRequest { target, source, rtype: spec_type_from_name(kind_name) }
}

/// The filter engine: a compiled, immutable rule set.
pub struct AdblockEngine {
    rules: RuleSet,
}

impl View for AdblockEngine {
    type V = Seq<SpecRule>;

    closed spec fn view(&self) -> Seq<SpecRule> {
        self.rules@
    }
}

impl AdblockEngine {
    /// Compiles rule lines into an engine. Succeeds exactly when every line
    /// compiles; one bad line fails the whole build with the first offending
    /// index, rather than silently dropping rules.
    pub fn build(rule_texts: &Vec<String>) -> (r: Result<AdblockEngine, RuleCompileError>)
        ensures
            match r {
                Ok(e) => {
                    &&& e@.len() == rule_texts@.len()
                    &&& forall|i: int|
                        0 <= i < rule_texts@.len() ==> crate::rules::spec_parse_rule(
                            #[trigger] rule_texts@[i]@,
                        ) is Some
                    &&& forall|i: int|
                        0 <= i < rule_texts@.len() ==> #[trigger] e@[i]
                            == crate::rules::spec_parse_rule(rule_texts@[i]@).unwrap()
                },
                Err(err) => {
                    &&& err.index < rule_texts@.len()
                    &&& crate::rules::spec_parse_rule(rule_texts@[err.index as int]@) is None
                    &&& forall|i: int|
                        0 <= i < err.index ==> crate::rules::spec_parse_rule(
                            #[trigger] rule_texts@[i]@,
                        ) is Some
                },
            },
    {
        match RuleSet::build(rule_texts) {
            Ok(rs) => Ok(AdblockEngine { rules: rs }),
            Err(e) => Err(e),
        }
    }

    /// Wraps an already compiled rule set.
    pub fn from_rule_set(rules: RuleSet) -> (e: AdblockEngine)
        ensures
            e@ == rules@,
    {
        AdblockEngine { rules }
    }

    /// Decides whether the request should be blocked. Deterministic, reads
    /// the rule set only, and never fails: the answer is exactly
    /// [`decide_spec`] of the engine's rules and the request.
    pub fn decide(&self, req: &ClassifiedRequest) -> (b: bool)
        ensures
            b == decide_spec(self@, req@),
    {
        let target = chars_of(req.target_url.as_str());
        let n = self.rules.len();
        let mut blocked = false;
        let mut i: usize = 0;
        while i < n
            invariant
                i <= n,
                n == self@.len(),
                self@ == self.rules@,
                target@ == req.target_url@,
                blocked ==> exists|k: int|
                    0 <= k < i && !self@[k].exception && rule_matches(self@[k], req@),
                !blocked ==> forall|k: int|
                    0 <= k < i ==> !(!self@[k].exception && rule_matches(#[trigger] self@[k], req@)),
            decreases n - i,
        {
            if !blocked {
                let r = self.rules.rule_at(i);
                if !r.exception {
                    let scope_ok = match r.scope {
                        None => true,
                        Some(s) => s == req.resource_type,
                    };
                    if scope_ok {
                        if find_match(&r.pattern, r.domain_anchor, &target) {
                            proof {
                                assert(rule_matches(self@[i as int], req@));
                            }
                            blocked = true;
                        }
                    }
                }
            }
            i = i + 1;
        }
        if !blocked {
            proof {
                if exists|k: int|
                    0 <= k < self@.len() && !self@[k].exception && rule_matches(self@[k], req@) {
                    let k = choose|k: int|
                        0 <= k < self@.len() && !self@[k].exception && rule_matches(
                            self@[k],
                            req@,
                        );
                    assert(!(!self@[k].exception && rule_matches(self@[k], req@)));
                }
            }
            return false;
        }
        let mut j: usize = 0;
        while j < n
            invariant
                j <= n,
                n == self@.len(),
                self@ == self.rules@,
                target@ == req.target_url@,
                blocked,
                exists|k: int| 0 <= k < n && !self@[k].exception && rule_matches(self@[k], req@),
                forall|k: int|
                    0 <= k < j ==> !(self@[k].exception && rule_matches(#[trigger] self@[k], req@)),
            decreases n - j,
        {
            let r = self.rules.rule_at(j);
            if r.exception {
                let scope_ok = match r.scope {
                    None => true,
                    Some(s) => s == req.resource_type,
                };
                if scope_ok {
                    if find_match(&r.pattern, r.domain_anchor, &target) {
                        proof {
                            assert(rule_matches(self@[j as int], req@));
                        }
                        return false;
                    }
                }
            }
            proof {
                assert(!(self@[j as int].exception && rule_matches(self@[j as int], req@)));
            }
            j = j + 1;
        }
        proof {
            if exists|k: int|
                0 <= k < self@.len() && self@[k].exception && rule_matches(self@[k], req@) {
                let k = choose|k: int|
                    0 <= k < self@.len() && self@[k].exception && rule_matches(self@[k], req@);
                assert(!(self@[k].exception && rule_matches(self@[k], req@)));
            }
        }
        true
    }

    /// Decides whether a raw request should be blocked, from a raw URL, a
    /// source URL, and a request-type name. If either URL is not
    /// well-formed, the engine fails open and answers `false`: a parse
    /// failure is a classification problem, never a reason to break the
    /// interception path.
    pub fn check_should_block(&self, url: &str, source_url: &str, request_type: &str) -> (b: bool)
        ensures
            b == (is_well_formed_url(url@) && is_well_formed_url(source_url@) && decide_spec(
                self@,
                classified_as(url@, source_url@, request_type@),
            )),
    {
        if !is_well_formed_url_str(url) {
            return false;
        }
        if !is_well_formed_url_str(source_url) {
            return false;
        }
        let t = type_from_name(request_type);
        let req = ClassifiedRequest {
            target_url: url.to_owned(),
            source_url: source_url.to_owned(),
            resource_type: t,
        };
        proof {
            assert(req@ == classified_as(url@, source_url@, request_type@));
        }
        self.decide(&req)
    }
}

/// The built-in rule list: one domain rule for a common ad server and one
/// path rule for a specific image. It stands in for a future remote rule
/// source; swapping the source means building a new engine from other
/// lines, never editing a built one.
pub fn default_rules() -> (r: Vec<String>)
    ensures
        r@.len() == 2,
        r@[0]@ == "||doubleclick.net^"@,
        r@[1]@ == "/ad.png"@,
{
    let mut v: Vec<String> = Vec::new();
    v.push("||doubleclick.net^".to_owned());
    v.push("/ad.png".to_owned());
    v
}

// ---------------------------------------------------------------------------
// Laws of the decision
// ---------------------------------------------------------------------------

/// No false positives from unrelated rules: if no rule's pattern occurs in
/// the request's target URL, the decision is allow — whatever the rules'
/// flags and scopes are.
pub proof fn lemma_unmatched_rules_allow(rules: Seq<SpecRule>, q: SpecRequest)
    requires
        forall|i: int|
            0 <= i < rules.len() ==> !pattern_occurs(
                #[trigger] rules[i].pattern,
                rules[i].domain_anchor,
                q.target,
            ),
    ensures
        !decide_spec(rules, q),
{
    if exists|i: int| 0 <= i < rules.len() && !rules[i].exception && rule_matches(rules[i], q) {
        let i = choose|i: int|
            0 <= i < rules.len() && !rules[i].exception && rule_matches(rules[i], q);
        assert(!pattern_occurs(rules[i].pattern, rules[i].domain_anchor, q.target));
    }
}

/// The decision is deterministic: any two decisions taken from the same
/// rule set and the same classified request are equal.
pub proof fn lemma_decide_deterministic(rules: Seq<SpecRule>, q: SpecRequest, d1: bool, d2: bool)
    requires
        d1 == decide_spec(rules, q),
        d2 == decide_spec(rules, q),
    ensures
        d1 == d2,
{
}

/// Blocking is resource-type-scoped: a rule scoped to one resource type
/// never matches a request of another type, even when its pattern occurs in
/// the target URL.
pub proof fn lemma_scope_respected(r: SpecRule, q: SpecRequest)
    requires
        r.scope is Some,
        r.scope.unwrap() != q.rtype,
    ensures
        !rule_matches(r, q),
{
}

/// A rule set in which every rule is scoped to some type other than the
/// request's always allows the request.
pub proof fn lemma_scoped_rules_allow(rules: Seq<SpecRule>, q: SpecRequest)
    requires
        forall|i: int|
            0 <= i < rules.len() ==> (#[trigger] rules[i].scope) is Some && rules[i].scope.unwrap()
                != q.rtype,
    ensures
        !decide_spec(rules, q),
{
    if exists|i: int| 0 <= i < rules.len() && !rules[i].exception && rule_matches(rules[i], q) {
        let i = choose|i: int|
            0 <= i < rules.len() && !rules[i].exception && rule_matches(rules[i], q);
        lemma_scope_respected(rules[i], q);
    }
}

} // verus!

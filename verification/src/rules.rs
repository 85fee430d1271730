//! The rule grammar and compiled rule sets.
//!
//! A rule is one line of text:
//!
//! - an optional `@@` prefix makes it an exception rule (a matching
//!   exception overrides every matching block rule);
//! - an optional `$name` suffix, after the last `$` of the line, scopes the
//!   rule to one resource type (`script`, `style`, `image` or `other`); a
//!   rule without a scope applies to requests of every type;
//! - an optional `||` prefix on what remains makes the pattern
//!   domain-anchored;
//! - what is left is the pattern, with `*` and `^` as described in
//!   [`crate::matching`]. An empty pattern, or an unknown scope name after a
//!   `$`, is a compile error.
//!
//! Compilation is all-or-nothing: one bad line fails the whole build, so a
//! rule set can never silently lose part of its rules.

use vstd::prelude::*;

use crate::chars::{chars_of, subvec, vec_chars_eq};
use crate::request::ResourceType;

verus! {

/// The mathematical model of one compiled rule.
pub ghost struct SpecRule {
    pub exception: bool,
    pub domain_anchor: bool,
    pub pattern: Seq<char>,
    pub scope: Option<ResourceType>,
}

/// One compiled rule: an opaque pattern plus its matching options.
#[derive(Debug)]
pub struct Rule {
    pub exception: bool,
    pub domain_anchor: bool,
    pub pattern: Vec<char>,
    pub scope: Option<ResourceType>,
}

impl View for Rule {
    type V = SpecRule;

    open spec fn view(&self) -> SpecRule {
        SpecRule {
            exception: self.exception,
            domain_anchor: self.domain_anchor,
            pattern: self.pattern@,
            scope: self.scope,
        }
    }
}

/// A rule text failed to compile; `index` is the position of the first bad
/// line in the supplied list.
#[derive(Clone, Copy, Debug, PartialEq, Eq, Structural)]
pub struct RuleCompileError {
    pub index: usize,
}

// ---------------------------------------------------------------------------
// The rule grammar, as specification functions
// ---------------------------------------------------------------------------

/// `j` is the position of the last `$` in `s`.
pub open spec fn is_last_dollar(s: Seq<char>, j: int) -> bool {
    &&& 0 <= j < s.len()
    &&& s[j] == '$'
    &&& forall|k: int| j < k < s.len() ==> s[k] != '$'
}

/// `s` contains a `$` somewhere.
pub open spec fn has_dollar(s: Seq<char>) -> bool {
    exists|j: int| 0 <= j < s.len() && s[j] == '$'
}

/// The position of the last `$` is unique.
pub proof fn lemma_last_dollar_unique(s: Seq<char>, a: int, b: int)
    requires
        is_last_dollar(s, a),
        is_last_dollar(s, b),
    ensures
        a == b,
{
    if a < b {
        assert(s[b] != '$');
    }
    if b < a {
        assert(s[a] != '$');
    }
}

/// The resource type denoted by a scope name in rule text, or `None` for an
/// unknown name.
pub open spec fn scope_name(s: Seq<char>) -> Option<ResourceType> {
    if s == seq!['s', 'c', 'r', 'i', 'p', 't'] {
        Some(ResourceType::Script)
    } else if s == seq!['s', 't', 'y', 'l', 'e'] {
        Some(ResourceType::Style)
    } else if s == seq!['i', 'm', 'a', 'g', 'e'] {
        Some(ResourceType::Image)
    } else if s == seq!['o', 't', 'h', 'e', 'r'] {
        Some(ResourceType::Other)
    } else {
        None
    }
}

/// Compiles the part of a rule line left after the exception prefix and the
/// scope suffix have been taken off: strips a `||` domain anchor and refuses
/// an empty pattern.
pub open spec fn spec_parse_body(exception: bool, scope: Option<ResourceType>, body: Seq<char>) -> Option<
    SpecRule,
> {
    let anchor = body.len() >= 2 && body[0] == '|' && body[1] == '|';
    let pattern = if anchor {
        body.skip(2)
    } else {
        body
    };
    if pattern.len() == 0 {
        None
    } else {
        Some(SpecRule { exception, domain_anchor: anchor, pattern, scope })
    }
}

/// Compiles one rule line, or `None` if the line is invalid.
pub open spec fn spec_parse_rule(t: Seq<char>) -> Option<SpecRule> {
    let exception = t.len() >= 2 && t[0] == '@' && t[1] == '@';
    let rest = if exception {
        t.skip(2)
    } else {
        t
    };
    if has_dollar(rest) {
        let j = choose|j: int| is_last_dollar(rest, j);
        match scope_name(rest.skip(j + 1)) {
            Some(sc) => spec_parse_body(exception, Some(sc), rest.take(j)),
            None => None,
        }
    } else {
        spec_parse_body(exception, None, rest)
    }
}

// ---------------------------------------------------------------------------
// The compiler
// ---------------------------------------------------------------------------

fn name_script() -> (v: Vec<char>)
    ensures
        v@ == seq!['s', 'c', 'r', 'i', 'p', 't'],
{
    let mut v: Vec<char> = Vec::new();
    v.push('s');
    v.push('c');
    v.push('r');
    v.push('i');
    v.push('p');
    v.push('t');
    assert(v@ =~= seq!['s', 'c', 'r', 'i', 'p', 't']);
    v
}

fn name_style() -> (v: Vec<char>)
    ensures
        v@ == seq!['s', 't', 'y', 'l', 'e'],
{
    let mut v: Vec<char> = Vec::new();
    v.push('s');
    v.push('t');
    v.push('y');
    v.push('l');
    v.push('e');
    assert(v@ =~= seq!['s', 't', 'y', 'l', 'e']);
    v
}

fn name_image() -> (v: Vec<char>)
    ensures
        v@ == seq!['i', 'm', 'a', 'g', 'e'],
{
    let mut v: Vec<char> = Vec::new();
    v.push('i');
    v.push('m');
    v.push('a');
    v.push('g');
    v.push('e');
    assert(v@ =~= seq!['i', 'm', 'a', 'g', 'e']);
    v
}

fn name_other() -> (v: Vec<char>)
    ensures
        v@ == seq!['o', 't', 'h', 'e', 'r'],
{
    let mut v: Vec<char> = Vec::new();
    v.push('o');
    v.push('t');
    v.push('h');
    v.push('e');
    v.push('r');
    assert(v@ =~= seq!['o', 't', 'h', 'e', 'r']);
    v
}

/// Parses a scope name taken from rule text.
fn parse_scope_name(v: &Vec<char>) -> (r: Option<ResourceType>)
    ensures
        r == scope_name(v@),
{
    let n1 = name_script();
    if vec_chars_eq(v, &n1) {
        return Some(ResourceType::Script);
    }
    let n2 = name_style();
    if vec_chars_eq(v, &n2) {
        return Some(ResourceType::Style);
    }
    let n3 = name_image();
    if vec_chars_eq(v, &n3) {
        return Some(ResourceType::Image);
    }
    let n4 = name_other();
    if vec_chars_eq(v, &n4) {
        return Some(ResourceType::Other);
    }
    None
}

/// Compiles the body of a rule line into a [`Rule`].
fn parse_body(exception: bool, scope: Option<ResourceType>, body: Vec<char>) -> (r: Option<Rule>)
    ensures
        (r is Some <==> spec_parse_body(exception, scope, body@) is Some),
        r is Some ==> r.unwrap()@ == spec_parse_body(exception, scope, body@).unwrap(),
{
    let n = body.len();
    let anchor = n >= 2 && body[0] == '|' && body[1] == '|';
    let pattern = if anchor {
        subvec(&body, 2, n)
    } else {
        body
    };
    if pattern.len() == 0 {
        None
    } else {
        Some(Rule { exception, domain_anchor: anchor, pattern, scope })
    }
}

/// Compiles one rule line, given as a character vector.
fn parse_rule_chars(t: &Vec<char>) -> (r: Option<Rule>)
    ensures
        (r is Some <==> spec_parse_rule(t@) is Some),
        r is Some ==> r.unwrap()@ == spec_parse_rule(t@).unwrap(),
{
    let n = t.len();
    let exception = n >= 2 && t[0] == '@' && t[1] == '@';
    let start: usize = if exception {
        2
    } else {
        0
    };
    let rest = subvec(t, start, n);
    proof {
        if exception {
            assert(rest@ =~= t@.skip(2));
        } else {
            assert(rest@ =~= t@);
        }
    }
    let m = rest.len();
    let mut i: usize = m;
    let mut found = false;
    let mut dj: usize = 0;
    while !found && i > 0
        invariant
            i <= m,
            m == rest@.len(),
            !found ==> forall|k: int| i <= k < m ==> rest@[k] != '$',
            found ==> is_last_dollar(rest@, dj as int),
        decreases i + (if found {
            0int
        } else {
            1int
        }),
    {
        if rest[i - 1] == '$' {
            found = true;
            dj = i - 1;
        } else {
            i = i - 1;
        }
    }
    if !found {
        proof {
            if has_dollar(rest@) {
                let j = choose|j: int| 0 <= j < rest@.len() && rest@[j] == '$';
                assert(rest@[j] != '$');
            }
        }
        return parse_body(exception, None, rest);
    }
    proof {
        assert(has_dollar(rest@));
        let j = choose|j: int| is_last_dollar(rest@, j);
        lemma_last_dollar_unique(rest@, j, dj as int);
    }
    let tail = subvec(&rest, dj + 1, m);
    match parse_scope_name(&tail) {
        None => None,
        Some(sc) => {
            let body = subvec(&rest, 0, dj);
            assert(body@ =~= rest@.take(dj as int));
            parse_body(exception, Some(sc), body)
        },
    }
}

/// Compiles one rule line of text.
pub fn parse_rule(text: &str) -> (r: Option<Rule>)
    ensures
        (r is Some <==> spec_parse_rule(text@) is Some),
        r is Some ==> r.unwrap()@ == spec_parse_rule(text@).unwrap(),
{
    let v = chars_of(text);
    parse_rule_chars(&v)
}

// ---------------------------------------------------------------------------
// Rule sets
// ---------------------------------------------------------------------------

/// An immutable compiled collection of rules. Built once, never mutated:
/// every concurrent consumer shares it read-only.
#[derive(Debug)]
pub struct RuleSet {
    pub(crate) rules: Vec<Rule>,
}

impl View for RuleSet {
    type V = Seq<SpecRule>;

    closed spec fn view(&self) -> Seq<SpecRule> {
        Seq::new(self.rules@.len(), |i: int| self.rules@[i]@)
    }
}

impl RuleSet {
    /// Compiles a sequence of rule lines into a rule set. Succeeds exactly
    /// when every line compiles; a single bad line fails the whole build and
    /// reports the first offending index.
    pub fn build(rule_texts: &Vec<String>) -> (r: Result<RuleSet, RuleCompileError>)
        ensures
            match r {
                Ok(rs) => {
                    &&& rs@.len() == rule_texts@.len()
                    &&& forall|i: int|
                        0 <= i < rule_texts@.len() ==> spec_parse_rule(#[trigger] rule_texts@[i]@)
                            is Some
                    &&& forall|i: int|
                        0 <= i < rule_texts@.len() ==> #[trigger] rs@[i] == spec_parse_rule(
                            rule_texts@[i]@,
                        ).unwrap()
                },
                Err(e) => {
                    &&& e.index < rule_texts@.len()
                    &&& spec_parse_rule(rule_texts@[e.index as int]@) is None
                    &&& forall|i: int|
                        0 <= i < e.index ==> spec_parse_rule(#[trigger] rule_texts@[i]@) is Some
                },
            },
    {
        let n = rule_texts.len();
        let mut rules: Vec<Rule> = Vec::new();
        let mut i: usize = 0;
        while i < n
            invariant
                i <= n,
                n == rule_texts@.len(),
                rules@.len() == i,
                forall|k: int|
                    0 <= k < i ==> spec_parse_rule(#[trigger] rule_texts@[k]@) is Some,
                forall|k: int|
                    0 <= k < i ==> #[trigger] rules@[k]@ == spec_parse_rule(
                        rule_texts@[k]@,
                    ).unwrap(),
            decreases n - i,
        {
            let text: &String = &rule_texts[i];
            match parse_rule(text.as_str()) {
                None => {
                    return Err(RuleCompileError { index: i });
                },
                Some(rule) => {
                    rules.push(rule);
                },
            }
            i = i + 1;
        }
        let rs = RuleSet { rules };
        proof {
            assert(forall|k: int| 0 <= k < n ==> #[trigger] rs@[k] == rs.rules@[k]@);
        }
        Ok(rs)
    }

    /// The number of compiled rules.
    pub fn len(&self) -> (n: usize)
        ensures
            n == self@.len(),
    {
        self.rules.len()
    }

    /// The rule at position `i`.
    pub fn rule_at(&self, i: usize) -> (r: &Rule)
        requires
            i < self@.len(),
        ensures
            r@ == self@[i as int],
    {
        &self.rules[i]
    }
}

} // verus!

//! Pattern matching over URLs.
//!
//! A rule's pattern is a sequence of characters in which `*` matches any run
//! of characters, `^` matches a single separator character or the end of the
//! URL, and every other character matches itself. A plain pattern matches a
//! URL when it matches starting anywhere in it (path-substring matching); a
//! domain-anchored pattern (written with a leading `||` in rule text) may
//! only start matching at a domain boundary: the start of the URL, or right
//! after a `/` or a `.`.

use vstd::prelude::*;

use crate::request::{is_ascii_alpha, is_ascii_digit};

verus! {

/// Separator characters for the `^` pattern element: everything except
/// letters, digits, `_`, `-`, `.` and `%`.
pub open spec fn is_separator_char(c: char) -> bool {
    !(is_ascii_alpha(c) || is_ascii_digit(c) || c == '_' || c == '-' || c == '.' || c == '%')
}

/// The pattern `pat` matches a prefix of `s`: an empty pattern matches
/// anything, `*` consumes any run of characters, `^` consumes one separator
/// character or the end of the input, and a literal character consumes an
/// equal character.
pub open spec fn pat_matches_from(pat: Seq<char>, s: Seq<char>) -> bool
    decreases pat.len(), s.len(),
{
    if pat.len() == 0 {
        true
    } else if pat[0] == '*' {
        pat_matches_from(pat.skip(1), s) || (s.len() > 0 && pat_matches_from(pat, s.skip(1)))
    } else if pat[0] == '^' {
        (s.len() == 0 && pat_matches_from(pat.skip(1), s)) || (s.len() > 0 && is_separator_char(
            s[0],
        ) && pat_matches_from(pat.skip(1), s.skip(1)))
    } else {
        s.len() > 0 && pat[0] == s[0] && pat_matches_from(pat.skip(1), s.skip(1))
    }
}

/// Position `i` of `url` is a domain boundary: the start of the URL, or a
/// position right after a `/` (this includes the position right after the
/// `scheme://` separator) or after a `.` (a subdomain boundary).
pub open spec fn anchor_ok(url: Seq<char>, i: int) -> bool {
    i == 0 || url[i - 1] == '/' || url[i - 1] == '.'
}

/// The pattern may start matching `url` at position `i`.
pub open spec fn match_candidate(pat: Seq<char>, domain_anchor: bool, url: Seq<char>, i: int) -> bool {
    &&& 0 <= i <= url.len()
    &&& (domain_anchor ==> anchor_ok(url, i))
    &&& pat_matches_from(pat, url.skip(i))
}

/// The pattern occurs in `url`: it matches starting at some position, at a
/// domain boundary if the pattern is domain-anchored.
pub open spec fn pattern_occurs(pat: Seq<char>, domain_anchor: bool, url: Seq<char>) -> bool {
    exists|i: int| match_candidate(pat, domain_anchor, url, i)
}

/// Decides whether `pat@.skip(pi)` matches a prefix of `s@.skip(si)`.
pub fn match_from(pat: &Vec<char>, pi: usize, s: &Vec<char>, si: usize) -> (r: bool)
    requires
        pi <= pat.len(),
        si <= s.len(),
    ensures
        r == pat_matches_from(pat@.skip(pi as int), s@.skip(si as int)),
    decreases pat.len() - pi, s.len() - si,
{
    if pi == pat.len() {
        assert(pat@.skip(pi as int).len() == 0);
        return true;
    }
    proof {
        assert(pat@.skip(pi as int)[0] == pat@[pi as int]);
        assert(pat@.skip(pi as int).skip(1) =~= pat@.skip(pi as int + 1));
        if si < s.len() {
            assert(s@.skip(si as int)[0] == s@[si as int]);
            assert(s@.skip(si as int).skip(1) =~= s@.skip(si as int + 1));
        }
    }
    let c = pat[pi];
    if c == '*' {
        if match_from(pat, pi + 1, s, si) {
            return true;
        }
        if si < s.len() {
            return match_from(pat, pi, s, si + 1);
        }
        false
    } else if c == '^' {
        if si == s.len() {
            match_from(pat, pi + 1, s, si)
        } else {
            let sc = s[si];
            let sep = !(('a' <= sc && sc <= 'z') || ('A' <= sc && sc <= 'Z') || ('0' <= sc && sc
                <= '9') || sc == '_' || sc == '-' || sc == '.' || sc == '%');
            if sep {
                match_from(pat, pi + 1, s, si + 1)
            } else {
                false
            }
        }
    } else {
        if si < s.len() && c == s[si] {
            match_from(pat, pi + 1, s, si + 1)
        } else {
            false
        }
    }
}

/// Decides whether the pattern may start matching `url` at position `i`.
fn try_at(pat: &Vec<char>, domain_anchor: bool, url: &Vec<char>, i: usize) -> (r: bool)
    requires
        i <= url.len(),
    ensures
        r == match_candidate(pat@, domain_anchor, url@, i as int),
{
    let anchored_ok = if domain_anchor {
        if i == 0 {
            true
        } else {
            let p = url[i - 1];
            p == '/' || p == '.'
        }
    } else {
        true
    };
    if !anchored_ok {
        proof {
            assert(!anchor_ok(url@, i as int));
        }
        return false;
    }
    let r = match_from(pat, 0, url, i);
    proof {
        assert(pat@.skip(0) =~= pat@);
    }
    r
}

/// Decides whether the pattern occurs in `url`, trying every admissible
/// start position.
pub fn find_match(pat: &Vec<char>, domain_anchor: bool, url: &Vec<char>) -> (r: bool)
    ensures
        r == pattern_occurs(pat@, domain_anchor, url@),
{
    let n = url.len();
    let mut i: usize = 0;
    while i < n
        invariant
            i <= n,
            n == url@.len(),
            forall|k: int| 0 <= k < i ==> !match_candidate(pat@, domain_anchor, url@, k),
        decreases n - i,
    {
        if try_at(pat, domain_anchor, url, i) {
            return true;
        }
        i = i + 1;
    }
    if try_at(pat, domain_anchor, url, n) {
        return true;
    }
    proof {
        if pattern_occurs(pat@, domain_anchor, url@) {
            let k = choose|k: int| match_candidate(pat@, domain_anchor, url@, k);
            assert(!match_candidate(pat@, domain_anchor, url@, k));
        }
    }
    false
}

} // verus!

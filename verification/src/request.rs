//! Request classification.
//!
//! A raw outbound request is just a URL string. Before the rule engine can
//! decide anything, the request is classified: the target URL is checked for
//! well-formedness, and a resource type is derived from the URL's suffix
//! (`.css` is a style sheet, `.js` a script, anything else an image). The
//! suffix table is a deliberately coarse heuristic — classification happens
//! before any network round trip, so no MIME type is available — and the
//! "no recognised suffix means image" fallback is part of the observable
//! behaviour, since some rules are scoped to a resource type.

use vstd::prelude::*;

use crate::chars::chars_of;

verus! {

/// The resource type assigned to every classified request. A request always
/// carries exactly one of these; there is no "unknown" or absent type.
#[derive(Clone, Copy, Debug, PartialEq, Eq, Structural)]
pub enum ResourceType {
    Script,
    Style,
    Image,
    Other,
}

// ---------------------------------------------------------------------------
// URL well-formedness
// ---------------------------------------------------------------------------

pub open spec fn is_ascii_alpha(c: char) -> bool {
    ('a' <= c && c <= 'z') || ('A' <= c && c <= 'Z')
}

pub open spec fn is_ascii_digit(c: char) -> bool {
    '0' <= c && c <= '9'
}

/// Characters allowed in a URL scheme after its leading letter.
pub open spec fn is_scheme_char(c: char) -> bool {
    is_ascii_alpha(c) || is_ascii_digit(c) || c == '+' || c == '-' || c == '.'
}

/// `s` has the literal separator `://` starting at position `k`.
pub open spec fn scheme_sep_at(s: Seq<char>, k: int) -> bool {
    &&& 0 <= k
    &&& k + 3 <= s.len()
    &&& s[k] == ':'
    &&& s[k + 1] == '/'
    &&& s[k + 2] == '/'
}

/// Characters that end the host portion of a URL.
pub open spec fn is_host_delim(c: char) -> bool {
    c == '/' || c == ':' || c == '?' || c == '#'
}

/// `s` is a well-formed URL witnessed at separator position `k`: `k` is the
/// first occurrence of `://`, everything before it is a nonempty scheme that
/// starts with a letter, and a nonempty host follows.
pub open spec fn well_formed_at(s: Seq<char>, k: int) -> bool {
    &&& scheme_sep_at(s, k)
    &&& forall|j: int| 0 <= j < k ==> !scheme_sep_at(s, j)
    &&& k >= 1
    &&& is_ascii_alpha(s[0])
    &&& forall|j: int| 0 <= j < k ==> is_scheme_char(s[j])
    &&& k + 3 < s.len()
    &&& !is_host_delim(s[k + 3])
}

/// A URL is well-formed when it has the shape `scheme://host...` with a
/// nonempty letter-led scheme and a nonempty host.
pub open spec fn is_well_formed_url(s: Seq<char>) -> bool {
    exists|k: int| well_formed_at(s, k)
}

/// Decides URL well-formedness over a character vector.
pub fn check_well_formed(v: &Vec<char>) -> (b: bool)
    ensures
        b == is_well_formed_url(v@),
{
    let n = v.len();
    if n < 3 {
        return false;
    }
    let mut k: usize = 0;
    let mut found = false;
    while !found && k <= n - 3
        invariant
            k <= n,
            n == v@.len(),
            3 <= n,
            found ==> scheme_sep_at(v@, k as int),
            forall|j: int| 0 <= j < k ==> !scheme_sep_at(v@, j),
        decreases n - k + (if found { 0int } else { 1int }),
    {
        if v[k] == ':' && v[k + 1] == '/' && v[k + 2] == '/' {
            found = true;
        } else {
            k = k + 1;
        }
    }
    if !found {
        proof {
            assert forall|k2: int| !well_formed_at(v@, k2) by {
                if scheme_sep_at(v@, k2) {
                    assert(k2 + 3 <= n);
                    assert(k2 < k);
                }
            }
        }
        return false;
    }
    // `k` is the first separator position; every other candidate position is
    // ruled out by the "first occurrence" conjunct.
    proof {
        assert forall|k2: int| well_formed_at(v@, k2) implies k2 == k as int by {
            if k2 > k as int {
                assert(scheme_sep_at(v@, k as int));
            }
        }
    }
    if k < 1 || !(k + 3 < n) {
        return false;
    }
    let c0 = v[0];
    if !(('a' <= c0 && c0 <= 'z') || ('A' <= c0 && c0 <= 'Z')) {
        return false;
    }
    let h = v[k + 3];
    if h == '/' || h == ':' || h == '?' || h == '#' {
        return false;
    }
    let mut j: usize = 0;
    while j < k
        invariant
            j <= k,
            k + 3 < n,
            n == v@.len(),
            scheme_sep_at(v@, k as int),
            forall|k2: int| well_formed_at(v@, k2) ==> k2 == k as int,
            forall|i: int| 0 <= i < j ==> is_scheme_char(v@[i]),
        decreases k - j,
    {
        let c = v[j];
        if !(('a' <= c && c <= 'z') || ('A' <= c && c <= 'Z') || ('0' <= c && c <= '9') || c == '+'
            || c == '-' || c == '.')
        {
            proof {
                assert(!is_scheme_char(v@[j as int]));
                if is_well_formed_url(v@) {
                    let k2 = choose|k2: int| well_formed_at(v@, k2);
                    assert(k2 == k as int);
                    assert(is_scheme_char(v@[j as int]));
                }
            }
            return false;
        }
        j = j + 1;
    }
    assert(well_formed_at(v@, k as int));
    true
}

/// Decides URL well-formedness over a string slice.
pub fn is_well_formed_url_str(s: &str) -> (b: bool)
    ensures
        b == is_well_formed_url(s@),
{
    let v = chars_of(s);
    check_well_formed(&v)
}

// ---------------------------------------------------------------------------
// Resource-type derivation
// ---------------------------------------------------------------------------

/// `s` ends with `suffix`.
pub open spec fn seq_ends_with(s: Seq<char>, suffix: Seq<char>) -> bool {
    s.len() >= suffix.len() && s.skip(s.len() - suffix.len()) == suffix
}

pub open spec fn css_suffix() -> Seq<char> {
    seq!['.', 'c', 's', 's']
}

pub open spec fn js_suffix() -> Seq<char> {
    seq!['.', 'j', 's']
}

/// The fixed, ordered suffix table: `.css` is a style sheet, `.js` a script,
/// and everything else — including URLs with no recognisable suffix at all —
/// falls back to image. Total over all character sequences.
pub open spec fn spec_resource_type(url: Seq<char>) -> ResourceType {
    if seq_ends_with(url, css_suffix()) {
        ResourceType::Style
    } else if seq_ends_with(url, js_suffix()) {
        ResourceType::Script
    } else {
        ResourceType::Image
    }
}

/// Classification is total: whatever the URL string holds, the derived
/// resource type is one of the three the suffix table can produce, and a URL
/// matching neither suffix is always an image.
pub proof fn lemma_resource_type_total(url: Seq<char>)
    ensures
        spec_resource_type(url) == ResourceType::Style || spec_resource_type(url)
            == ResourceType::Script || spec_resource_type(url) == ResourceType::Image,
        !seq_ends_with(url, css_suffix()) && !seq_ends_with(url, js_suffix())
            ==> spec_resource_type(url) == ResourceType::Image,
{
}

fn has_css_suffix(v: &Vec<char>) -> (b: bool)
    ensures
        b == seq_ends_with(v@, css_suffix()),
{
    let n = v.len();
    if n >= 4 && v[n - 4] == '.' && v[n - 3] == 'c' && v[n - 2] == 's' && v[n - 1] == 's' {
        proof {
            assert(v@.skip(n - 4) =~= css_suffix());
        }
        true
    } else {
        proof {
            if seq_ends_with(v@, css_suffix()) {
                assert(v@.skip(n - 4)[0] == v@[n - 4]);
                assert(v@.skip(n - 4)[1] == v@[n - 3]);
                assert(v@.skip(n - 4)[2] == v@[n - 2]);
                assert(v@.skip(n - 4)[3] == v@[n - 1]);
            }
        }
        false
    }
}

fn has_js_suffix(v: &Vec<char>) -> (b: bool)
    ensures
        b == seq_ends_with(v@, js_suffix()),
{
    let n = v.len();
    if n >= 3 && v[n - 3] == '.' && v[n - 2] == 'j' && v[n - 1] == 's' {
        proof {
            assert(v@.skip(n - 3) =~= js_suffix());
        }
        true
    } else {
        proof {
            if seq_ends_with(v@, js_suffix()) {
                assert(v@.skip(n - 3)[0] == v@[n - 3]);
                assert(v@.skip(n - 3)[1] == v@[n - 2]);
                assert(v@.skip(n - 3)[2] == v@[n - 1]);
            }
        }
        false
    }
}

/// Derives the resource type of a raw URL from its suffix. Total: accepts
/// any string, even one that is not a well-formed URL.
pub fn classify_resource_type(raw_url: &str) -> (t: ResourceType)
    ensures
        t == spec_resource_type(raw_url@),
{
    let v = chars_of(raw_url);
    if has_css_suffix(&v) {
        ResourceType::Style
    } else if has_js_suffix(&v) {
        ResourceType::Script
    } else {
        ResourceType::Image
    }
}

// ---------------------------------------------------------------------------
// Classified requests
// ---------------------------------------------------------------------------

/// A request normalised for the rule engine: target URL, originating page
/// URL, and a resource type. The URLs of a value built by [`classify`] are
/// well-formed, and the resource type is always assigned.
#[derive(Debug)]
pub struct ClassifiedRequest {
    pub target_url: String,
    pub source_url: String,
    pub resource_type: ResourceType,
}

/// The mathematical model of a classified request.
pub ghost struct SpecRequest {
    pub target: Seq<char>,
    pub source: Seq<char>,
    pub rtype: ResourceType,
}

impl View for ClassifiedRequest {
    type V = SpecRequest;

    open spec fn view(&self) -> SpecRequest {
        SpecRequest {
            target: self.target_url@,
            source: self.source_url@,
            rtype: self.resource_type,
        }
    }
}

impl ClassifiedRequest {
    /// Both URLs are well-formed.
    pub open spec fn wf(self) -> bool {
        is_well_formed_url(self.target_url@) && is_well_formed_url(self.source_url@)
    }
}

/// Why classification of a request failed.
#[derive(Clone, Copy, Debug, PartialEq, Eq, Structural)]
pub enum ClassificationError {
    MalformedTargetUrl,
    MalformedSourceUrl,
}

/// Classifies a raw request. Succeeds exactly when both the target URL and
/// the default source URL are well-formed; the resource type is derived from
/// the target URL's suffix. The default source URL stands in for a
/// per-navigation page context, a known approximation kept on purpose.
pub fn classify(raw_url: &str, default_source_url: &str) -> (r: Result<
    ClassifiedRequest,
    ClassificationError,
>)
    ensures
        r is Ok <==> is_well_formed_url(raw_url@) && is_well_formed_url(default_source_url@),
        match r {
            Ok(req) => req.target_url@ == raw_url@ && req.source_url@ == default_source_url@
                && req.resource_type == spec_resource_type(raw_url@) && req.wf(),
            Err(e) => (e == ClassificationError::MalformedTargetUrl <==> !is_well_formed_url(
                raw_url@,
            )) && (e == ClassificationError::MalformedSourceUrl ==> is_well_formed_url(raw_url@)
                && !is_well_formed_url(default_source_url@)),
        },
{
    if !is_well_formed_url_str(raw_url) {
        return Err(ClassificationError::MalformedTargetUrl);
    }
    if !is_well_formed_url_str(default_source_url) {
        return Err(ClassificationError::MalformedSourceUrl);
    }
    let t = classify_resource_type(raw_url);
    Ok(ClassifiedRequest {
        target_url: raw_url.to_owned(),
        source_url: default_source_url.to_owned(),
        resource_type: t,
    })
}

// ---------------------------------------------------------------------------
// Resource-type names
// ---------------------------------------------------------------------------

/// The resource type denoted by a request-type name as handed in by the
/// rendering surface: `script`, `css`/`style`, `image`, and anything else
/// maps to [`ResourceType::Other`]. Total over all strings.
pub open spec fn spec_type_from_name(s: Seq<char>) -> ResourceType {
    if s == seq!['s', 'c', 'r', 'i', 'p', 't'] {
        ResourceType::Script
    } else if s == seq!['c', 's', 's'] || s == seq!['s', 't', 'y', 'l', 'e'] {
        ResourceType::Style
    } else if s == seq!['i', 'm', 'a', 'g', 'e'] {
        ResourceType::Image
    } else {
        ResourceType::Other
    }
}

/// Parses a request-type name; unknown names map to `Other`.
pub fn type_from_name(s: &str) -> (t: ResourceType)
    ensures
        t == spec_type_from_name(s@),
{
    let v = chars_of(s);
    let n = v.len();
    if n == 6 && v[0] == 's' && v[1] == 'c' && v[2] == 'r' && v[3] == 'i' && v[4] == 'p' && v[5]
        == 't' {
        proof {
            assert(v@ =~= seq!['s', 'c', 'r', 'i', 'p', 't']);
        }
        ResourceType::Script
    } else if n == 3 && v[0] == 'c' && v[1] == 's' && v[2] == 's' {
        proof {
            assert(v@ =~= seq!['c', 's', 's']);
        }
        ResourceType::Style
    } else if n == 5 && v[0] == 's' && v[1] == 't' && v[2] == 'y' && v[3] == 'l' && v[4] == 'e' {
        proof {
            assert(v@ =~= seq!['s', 't', 'y', 'l', 'e']);
        }
        ResourceType::Style
    } else if n == 5 && v[0] == 'i' && v[1] == 'm' && v[2] == 'a' && v[3] == 'g' && v[4] == 'e' {
        proof {
            assert(v@ =~= seq!['i', 'm', 'a', 'g', 'e']);
        }
        ResourceType::Image
    } else {
        ResourceType::Other
    }
}

} // verus!

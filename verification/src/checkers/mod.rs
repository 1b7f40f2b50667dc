//! The checkers: they look for a technology in the responses of an asset
//! and turn what they recognise into findings.

pub mod httpd;
pub mod pattern;

use crate::models::reqres::string_pairs_view;
use crate::models::technology::Technology;
use crate::models::{opt_slice_view, Finding, FindingView};
pub use pattern::{regex_compiles, regex_named_group, Pattern};
use vstd::prelude::*;

verus! {

// ---------------------------------------------------------------------
// Evidence
// ---------------------------------------------------------------------

/// The evidence kept from a matching text: the text itself when it is not
/// longer than `keep_left + keep_right` characters, otherwise its first
/// `keep_left` and last `keep_right` characters around `"[...]"`.
pub open spec fn shortened_evidence(whole: Seq<char>, keep_left: int, keep_right: int) -> Seq<char> {
    if whole.len() <= keep_left + keep_right {
        whole
    } else {
        whole.take(keep_left) + "[...]"@ + whole.skip(whole.len() - keep_right)
    }
}

/// Shortens a matching text into an evidence.
pub fn shorten_evidence(whole: &str, keep_left: usize, keep_right: usize) -> (r: String)
    ensures
        r@ == shortened_evidence(whole@, keep_left as int, keep_right as int),
{
    let n = whole.unicode_len();
    if keep_left >= n || keep_right >= n - keep_left {
        return whole.to_owned();
    }
    let left = whole.substring_char(0, keep_left).to_owned();
    let with_marker = left.concat("[...]");
    let r = with_marker.concat(whole.substring_char(n - keep_right, n));
    assert(whole@.subrange(0, keep_left as int) =~= whole@.take(keep_left as int));
    assert(whole@.subrange((n - keep_right) as int, n as int) =~= whole@.skip(n - keep_right));
    r
}

// ---------------------------------------------------------------------
// Templates
// ---------------------------------------------------------------------

/// Whether the non-empty `key` starts `s`.
pub open spec fn key_starts(s: Seq<char>, key: Seq<char>) -> bool {
    0 < key.len() <= s.len() && s.take(key.len() as int) == key
}

/// Index of the first variable, from the `k`-th on, whose name starts `s`;
/// `vars.len()` when there is none.
pub open spec fn first_key_at(s: Seq<char>, vars: Seq<(Seq<char>, Seq<char>)>, k: int) -> int
    decreases vars.len() - k,
{
    if k >= vars.len() {
        vars.len() as int
    } else if key_starts(s, vars[k].0) {
        k
    } else {
        first_key_at(s, vars, k + 1)
    }
}

pub proof fn lemma_first_key_at(s: Seq<char>, vars: Seq<(Seq<char>, Seq<char>)>, k: int)
    requires
        0 <= k <= vars.len(),
    ensures
        k <= first_key_at(s, vars, k) <= vars.len(),
        first_key_at(s, vars, k) < vars.len() ==> key_starts(s, vars[first_key_at(s, vars, k)].0),
    decreases vars.len() - k,
{
    if k < vars.len() && !key_starts(s, vars[k].0) {
        lemma_first_key_at(s, vars, k + 1);
    }
}

/// A template read from left to right, where each variable name (the
/// first in `vars` when several start at the same place) is replaced by
/// its value; the replaced values are not read again.
pub open spec fn expanded_template(t: Seq<char>, vars: Seq<(Seq<char>, Seq<char>)>) -> Seq<char>
    decreases t.len(),
{
    if t.len() == 0 {
        Seq::empty()
    } else {
        let k = first_key_at(t, vars, 0);
        if k < vars.len() {
            proof {
                lemma_first_key_at(t, vars, 0);
            }
            vars[k].1 + expanded_template(t.skip(vars[k].0.len() as int), vars)
        } else {
            seq![t[0]] + expanded_template(t.skip(1), vars)
        }
    }
}

fn key_starts_at(t: &str, n: usize, i: usize, key: &str) -> (r: bool)
    requires
        n == t@.len(),
        i <= n,
    ensures
        r == key_starts(t@.skip(i as int), key@),
{
    let m = key.unicode_len();
    if m == 0 || m > n - i {
        return false;
    }
    let mut j: usize = 0;
    while j < m
        invariant
            n == t@.len(),
            m == key@.len(),
            0 < m <= n - i,
            j <= m,
            forall|jj: int| 0 <= jj < j ==> t@[i + jj] == key@[jj],
        decreases m - j,
    {
        if t.get_char(i + j) != key.get_char(j) {
            assert(t@.skip(i as int).take(m as int)[j as int] != key@[j as int]);
            return false;
        }
        j += 1;
    }
    assert(t@.skip(i as int).take(m as int) =~= key@);
    true
}

fn first_key(t: &str, n: usize, i: usize, vars: &Vec<(String, String)>) -> (r: usize)
    requires
        n == t@.len(),
        i <= n,
    ensures
        r == first_key_at(t@.skip(i as int), string_pairs_view(vars@), 0),
{
    let ghost vv = string_pairs_view(vars@);
    let ghost s = t@.skip(i as int);
    let mut k: usize = 0;
    while k < vars.len()
        invariant
            n == t@.len(),
            i <= n,
            k <= vars@.len(),
            vv == string_pairs_view(vars@),
            s == t@.skip(i as int),
            first_key_at(s, vv, 0) == first_key_at(s, vv, k as int),
        decreases vars.len() - k,
    {
        assert(vv[k as int].0 == vars@[k as int].0@);
        if key_starts_at(t, n, i, vars[k].0.as_str()) {
            return k;
        }
        k += 1;
    }
    k
}

/// Expands a template: each variable name, read from left to right, is
/// replaced by its value (see `expanded_template`).
pub fn expand_template(template: &str, vars: &Vec<(String, String)>) -> (r: String)
    ensures
        r@ == expanded_template(template@, string_pairs_view(vars@)),
{
    let ghost vv = string_pairs_view(vars@);
    let n = template.unicode_len();
    let mut out = String::new();
    let mut i: usize = 0;
    assert(template@.skip(0) =~= template@);
    while i < n
        invariant
            n == template@.len(),
            i <= n,
            vv == string_pairs_view(vars@),
            out@ + expanded_template(template@.skip(i as int), vv) == expanded_template(template@, vv),
        decreases n - i,
    {
        let ghost rest = template@.skip(i as int);
        let k = first_key(template, n, i, vars);
        proof {
            lemma_first_key_at(rest, vv, 0);
        }
        if k < vars.len() {
            let key_len = vars[k].0.unicode_len();
            assert(vv[k as int] == (vars@[k as int].0@, vars@[k as int].1@));
            let ghost old_out = out@;
            out.append(vars[k].1.as_str());
            assert(rest.skip(key_len as int) =~= template@.skip(i + key_len));
            assert(out@ + expanded_template(template@.skip(i + key_len), vv)
                =~= old_out + (vv[k as int].1 + expanded_template(rest.skip(key_len as int), vv)));
            i += key_len;
        } else {
            let ghost old_out = out@;
            out.append(template.substring_char(i, i + 1));
            assert(template@.subrange(i as int, i + 1) =~= seq![rest[0]]);
            assert(rest.skip(1) =~= template@.skip(i + 1));
            assert(out@ + expanded_template(template@.skip(i + 1), vv)
                =~= old_out + (seq![rest[0]] + expanded_template(rest.skip(1), vv)));
            i += 1;
        }
    }
    assert(template@.skip(n as int) =~= Seq::<char>::empty());
    assert(out@ =~= out@ + expanded_template(template@.skip(n as int), vv));
    out
}

// ---------------------------------------------------------------------
// Findings
// ---------------------------------------------------------------------

/// The variables of the text of a finding: the name of the technology, its
/// version after a space (or nothing), the evidence and the URL of the
/// finding (or nothing).
pub open spec fn finding_template_vars(
    technology: Technology,
    version: Option<Seq<char>>,
    evidence: Seq<char>,
    url_of_finding: Option<Seq<char>>,
) -> Seq<(Seq<char>, Seq<char>)> {
    seq![
        ("$techno_name$"@, technology.spec_display_name()),
        ("$techno_version$"@, match version { Some(v) => " "@ + v, None => Seq::empty() }),
        ("$evidence$"@, evidence),
        ("$url_of_finding$"@, match url_of_finding { Some(u) => u, None => Seq::empty() }),
    ]
}

/// The finding made of a matching text, the version it revealed, and the
/// URL where it was found: the evidence is the shortened text, and the
/// text of the finding is the expanded template.
pub open spec fn extracted_finding(
    whole: Seq<char>,
    version: Option<Seq<char>>,
    url_of_finding: Option<Seq<char>>,
    keep_left: int,
    keep_right: int,
    technology: Technology,
    template: Seq<char>,
) -> FindingView {
    let evidence = shortened_evidence(whole, keep_left, keep_right);
    FindingView {
        technology,
        version,
        evidence,
        evidence_text: expanded_template(template, finding_template_vars(technology, version, evidence, url_of_finding)),
        url_of_finding,
    }
}

/// Builds a finding from what a regex captured: `whole` is the matching
/// text, `version` the version it revealed, if any.
pub fn extract_finding_from_captures(
    whole: &str,
    version: Option<&str>,
    url_of_finding: Option<&str>,
    keep_left: usize,
    keep_right: usize,
    technology: Technology,
    evidence_text: &str,
) -> (r: Finding)
    ensures
        r@ == extracted_finding(
            whole@,
            opt_slice_view(version),
            opt_slice_view(url_of_finding),
            keep_left as int,
            keep_right as int,
            technology,
            evidence_text@,
        ),
        r.vulnerabilities@.len() == 0,
{
    let evidence = shorten_evidence(whole, keep_left, keep_right);
    let version_text = match version {
        Some(v) => " ".to_owned().concat(v),
        None => String::new(),
    };
    let url_text = match url_of_finding {
        Some(u) => u.to_owned(),
        None => String::new(),
    };
    let vars: Vec<(String, String)> = vec![
        ("$techno_name$".to_owned(), technology.to_string()),
        ("$techno_version$".to_owned(), version_text),
        ("$evidence$".to_owned(), evidence.clone()),
        ("$url_of_finding$".to_owned(), url_text),
    ];
    assert(string_pairs_view(vars@) =~= finding_template_vars(
        technology,
        opt_slice_view(version),
        evidence@,
        opt_slice_view(url_of_finding),
    ));
    let text = expand_template(evidence_text, &vars);
    Finding::new(technology, version, evidence.as_str(), text.as_str(), url_of_finding)
}

/// An evidence is never longer than the characters kept from each side
/// and the marker between them, and a text short enough is kept whole.
pub proof fn law_evidence_bounded(whole: Seq<char>, keep_left: nat, keep_right: nat)
    ensures
        shortened_evidence(whole, keep_left as int, keep_right as int).len() <= keep_left + keep_right + 5,
        whole.len() <= keep_left + keep_right ==> shortened_evidence(whole, keep_left as int, keep_right as int) == whole,
{
    reveal_strlit("[...]");
}

/// A template in which no variable name starts anywhere is left as it is.
pub proof fn law_template_without_variables_unchanged(t: Seq<char>, vars: Seq<(Seq<char>, Seq<char>)>)
    requires
        forall|i: int| 0 <= i < t.len() ==> first_key_at(#[trigger] t.skip(i), vars, 0) == vars.len(),
    ensures
        expanded_template(t, vars) == t,
    decreases t.len(),
{
    if t.len() > 0 {
        assert(t.skip(0) =~= t);
        assert forall|i: int| 0 <= i < t.skip(1).len() implies first_key_at(#[trigger] t.skip(1).skip(i), vars, 0)
            == vars.len() by {
            assert(t.skip(1).skip(i) =~= t.skip(i + 1));
        }
        law_template_without_variables_unchanged(t.skip(1), vars);
        assert(seq![t[0]] + t.skip(1) =~= t);
    }
}

} // verus!

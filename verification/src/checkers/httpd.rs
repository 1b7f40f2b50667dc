//! The Apache httpd checker.
//! This module contains the checker used to determine if Apache httpd is
//! used by the asset.
//! https://httpd.apache.org

use super::{extract_finding_from_captures, extracted_finding, regex_compiles, regex_named_group, Pattern};
use crate::models::reqres::{requested_headers, string_pairs_view, UrlRequestType, UrlResponse};
use crate::models::technology::Technology;
use crate::models::{Finding, FindingView};
use vstd::prelude::*;

verus! {

/// The regex that recognises Apache httpd in an HTTP header.
/// Example: Apache/2.4.52 (Debian)
pub const HEADER_PATTERN: &'static str = r"^(?P<wholematch>.*Apache(\/(?P<version1>\d+(\.\d+(\.\d+)?)?))?.*)";

/// The regex that recognises Apache httpd in the body of a page.
/// Example: <address>Apache/2.4.52 (Debian) OpenSSL/1.1.1 Server at localhost Port 80</address>
pub const BODY_PATTERN: &'static str = r"<address>(?P<wholematch>Apache((\/(?P<version1>\d+\.\d+\.\d+)( \([^\)]+\)))?( [a-zA-Z0-9\/\.]+)? Server at (<a href=.[a-zA-Z0-9.@:+_-]*.>)?[a-zA-Z0-9-.]+(<\/a>)? Port \d+)?)<\/address>";

/// The number of characters of a matching text kept in the evidence, from
/// the left, when the text is too long.
pub const KEEP_LEFT: usize = 45;

/// The number of characters of a matching text kept in the evidence, from
/// the right, when the text is too long.
pub const KEEP_RIGHT: usize = 45;

/// The headers in which Apache httpd is looked for.
pub open spec fn header_names() -> Seq<Seq<char>> {
    seq!["Server"@, "X-powered-by"@]
}

/// The text of a finding made in the header `name`.
pub open spec fn header_template(name: Seq<char>) -> Seq<char> {
    "$techno_name$$techno_version$ has been identified using the HTTP header \""@ + name
        + ": $evidence$\" returned at the following URL: $url_of_finding$"@
}

/// The text of a finding made in the body of a page.
pub open spec fn body_template() -> Seq<char> {
    "$techno_name$$techno_version$ has been identified by looking at its signature \"$evidence$\" at this page: $url_of_finding$"@
}

/// The version a match reveals: the text of its `version1` group.
pub open spec fn version_of(group: Option<Option<Seq<char>>>) -> Option<Seq<char>> {
    match group {
        Some(Some(v)) => Some(v),
        _ => None,
    }
}

/// The finding that `pattern` makes in `text`, found at `url`: none when
/// the pattern does not match; otherwise the evidence comes from the
/// `wholematch` group (empty if it takes no part) and the version from the
/// `version1` group.
pub open spec fn finding_from_match(
    pattern: Seq<char>,
    text: Seq<char>,
    url: Seq<char>,
    template: Seq<char>,
) -> Option<FindingView> {
    match regex_named_group(pattern, text, "wholematch"@) {
        None => None,
        Some(whole) => Some(
            extracted_finding(
                match whole { Some(w) => w, None => Seq::empty() },
                version_of(regex_named_group(pattern, text, "version1"@)),
                Some(url),
                KEEP_LEFT as int,
                KEEP_RIGHT as int,
                Technology::Httpd,
                template,
            ),
        ),
    }
}

/// The finding made in the first of `headers` whose value the header
/// regex matches.
pub open spec fn first_header_finding(headers: Seq<(Seq<char>, Seq<char>)>, url: Seq<char>) -> Option<FindingView>
    decreases headers.len(),
{
    if headers.len() == 0 {
        None
    } else {
        match finding_from_match(HEADER_PATTERN@, headers[0].1, url, header_template(headers[0].0)) {
            Some(f) => Some(f),
            None => first_header_finding(headers.skip(1), url),
        }
    }
}

/// The finding made in the `Server` and `X-Powered-By` headers of a response.
pub open spec fn spec_header_finding(resp: UrlResponse) -> Option<FindingView> {
    first_header_finding(requested_headers(string_pairs_view(resp.headers@), header_names()), resp.url@)
}

/// The finding made in the body of a response.
pub open spec fn spec_body_finding(resp: UrlResponse) -> Option<FindingView> {
    finding_from_match(BODY_PATTERN@, resp.body@, resp.url@, body_template())
}

/// Whether a finding tells the version of the technology.
pub open spec fn has_version(f: Option<FindingView>) -> bool {
    f matches Some(v) && v.version is Some
}

/// `new` when it is `Some`, else `old`.
pub open spec fn latest(new: Option<FindingView>, old: Option<FindingView>) -> Option<FindingView> {
    if new is Some {
        new
    } else {
        old
    }
}

/// The finding that a scan of `data` returns, given the last header
/// finding and the last body finding made before `data`: responses to
/// JavaScript requests are skipped; in each other response the headers
/// are looked at first, then the body; the first finding that tells a
/// version is returned at once; at the end, the last header finding, or
/// else the last body finding.
pub open spec fn http_scan(
    data: Seq<UrlResponse>,
    header: Option<FindingView>,
    body: Option<FindingView>,
) -> Option<FindingView>
    decreases data.len(),
{
    if data.len() == 0 {
        latest(header, body)
    } else if data[0].request_type != UrlRequestType::Default {
        http_scan(data.skip(1), header, body)
    } else {
        let header2 = latest(spec_header_finding(data[0]), header);
        if has_version(header2) {
            header2
        } else {
            let body2 = latest(spec_body_finding(data[0]), body);
            if has_version(body2) {
                body2
            } else {
                http_scan(data.skip(1), header2, body2)
            }
        }
    }
}

/// The view of an optional finding.
pub open spec fn opt_finding_view(o: Option<Finding>) -> Option<FindingView> {
    match o {
        Some(f) => Some(f@),
        None => None,
    }
}

/// The Apache httpd checker
pub struct ApacheHttpdChecker {
    /// The regex used to recognise the technology in HTTP headers.
    header_regex: Pattern,
    /// The regex used to recognise the technology in bodies.
    body_regex: Pattern,
}

impl ApacheHttpdChecker {
    #[verifier::type_invariant]
    spec fn compiled_from_patterns(self) -> bool {
        &&& self.header_regex@ == HEADER_PATTERN@
        &&& self.body_regex@ == BODY_PATTERN@
    }

    /// The pattern of the regex used on HTTP headers.
    pub closed spec fn header_pattern(self) -> Seq<char> {
        self.header_regex@
    }

    /// The pattern of the regex used on bodies.
    pub closed spec fn body_pattern(self) -> Seq<char> {
        self.body_regex@
    }

    /// Creates a new ApacheHttpdChecker; the regexes are compiled once and
    /// the checker can be reused. Callers that cannot know that the regex
    /// crate accepts both patterns use `try_new`, which tests it.
    pub fn new() -> (r: ApacheHttpdChecker)
        requires
            regex_compiles(HEADER_PATTERN@),
            regex_compiles(BODY_PATTERN@),
        ensures
            r.header_pattern() == HEADER_PATTERN@,
            r.body_pattern() == BODY_PATTERN@,
    {
        Self::try_new().unwrap()
    }

    /// Creates a new ApacheHttpdChecker, or `None` when the regex crate
    /// refuses one of its regexes. This is the entry point without a
    /// precondition: it compiles each pattern once and tests the result.
    pub fn try_new() -> (r: Option<ApacheHttpdChecker>)
        ensures
            r is Some <==> regex_compiles(HEADER_PATTERN@) && regex_compiles(BODY_PATTERN@),
            r matches Some(c) ==> c.header_pattern() == HEADER_PATTERN@ && c.body_pattern() == BODY_PATTERN@,
    {
        match (Pattern::compile(HEADER_PATTERN), Pattern::compile(BODY_PATTERN)) {
            (Some(header_regex), Some(body_regex)) => Some(ApacheHttpdChecker { header_regex, body_regex }),
            _ => None,
        }
    }

    /// The finding that `pattern` makes in `text`.
    fn finding_in(pattern: &Pattern, text: &str, url: &str, template: &str) -> (r: Option<Finding>)
        ensures
            opt_finding_view(r) == finding_from_match(pattern@, text@, url@, template@),
            r matches Some(f) ==> f.vulnerabilities@.len() == 0,
    {
        match pattern.named_group(text, "wholematch") {
            None => None,
            Some(whole) => {
                let version = pattern.named_group(text, "version1");
                let whole_text = match whole {
                    Some(w) => w,
                    None => String::new(),
                };
                let version_text: Option<&str> = match &version {
                    Some(Some(v)) => Some(v.as_str()),
                    _ => None,
                };
                Some(
                    extract_finding_from_captures(
                        whole_text.as_str(),
                        version_text,
                        Some(url),
                        KEEP_LEFT,
                        KEEP_RIGHT,
                        Technology::Httpd,
                        template,
                    ),
                )
            },
        }
    }

    /// Check for the technology in the HTTP headers `Server` and
    /// `X-Powered-By` (in any case) of a response: the finding made in the
    /// first of them that matches.
    pub fn check_http_headers(&self, url_response: &UrlResponse) -> (r: Option<Finding>)
        ensures
            opt_finding_view(r) == spec_header_finding(*url_response),
            r matches Some(f) ==> f.vulnerabilities@.len() == 0,
    {
        proof {
            use_type_invariant(self);
        }
        let names: Vec<String> = vec!["Server".to_owned(), "X-powered-by".to_owned()];
        assert(names@.map_values(|n: String| n@) =~= header_names());
        let headers = url_response.get_headers(&names);
        let ghost hv = string_pairs_view(headers@);
        let mut i: usize = 0;
        assert(hv.skip(0) =~= hv);
        while i < headers.len()
            invariant
                i <= headers@.len(),
                hv == string_pairs_view(headers@),
                self.header_regex@ == HEADER_PATTERN@,
                spec_header_finding(*url_response) == first_header_finding(hv.skip(i as int), url_response.url@),
            decreases headers.len() - i,
        {
            let (header_name, header_value) = &headers[i];
            assert(hv.skip(i as int)[0] == (header_name@, header_value@));
            assert(hv.skip(i as int).skip(1) =~= hv.skip(i + 1));
            let template = "$techno_name$$techno_version$ has been identified using the HTTP header \"".to_owned()
                .concat(header_name.as_str())
                .concat(": $evidence$\" returned at the following URL: $url_of_finding$");
            let finding = Self::finding_in(&self.header_regex, header_value.as_str(), url_response.url.as_str(), template.as_str());
            if finding.is_some() {
                return finding;
            }
            i += 1;
        }
        None
    }

    /// Check for the technology in the body of a response.
    pub fn check_http_body(&self, url_response: &UrlResponse) -> (r: Option<Finding>)
        ensures
            opt_finding_view(r) == spec_body_finding(*url_response),
            r matches Some(f) ==> f.vulnerabilities@.len() == 0,
    {
        proof {
            use_type_invariant(self);
        }
        Self::finding_in(
            &self.body_regex,
            url_response.body.as_str(),
            url_response.url.as_str(),
            "$techno_name$$techno_version$ has been identified by looking at its signature \"$evidence$\" at this page: $url_of_finding$",
        )
    }

    /// Check if the asset is running Apache httpd.
    /// It looks in the following HTTP headers:
    /// - Server
    /// - X-Powered-By
    /// and in the "not found" page content
    ///
    /// Returns only one finding, otherwise findings would be duplicated each
    /// time it's found.
    pub fn check_http(&self, data: &[UrlResponse]) -> (r: Vec<Finding>)
        ensures
            r@.len() <= 1,
            r@.len() == 1 <==> http_scan(data@, None, None) is Some,
            r@.len() == 1 ==> http_scan(data@, None, None) == Some(r@[0]@),
            r@.len() == 1 ==> r@[0].vulnerabilities@.len() == 0,
    {
        let mut header_finding: Option<Finding> = None;
        let mut body_finding: Option<Finding> = None;
        let mut i: usize = 0;
        assert(data@.skip(0) =~= data@);
        while i < data.len()
            invariant
                i <= data@.len(),
                http_scan(data@, None, None) == http_scan(
                    data@.skip(i as int),
                    opt_finding_view(header_finding),
                    opt_finding_view(body_finding),
                ),
                header_finding matches Some(f) ==> f.vulnerabilities@.len() == 0,
                body_finding matches Some(f) ==> f.vulnerabilities@.len() == 0,
            decreases data.len() - i,
        {
            let url_response = &data[i];
            assert(data@.skip(i as int)[0] == data@[i as int]);
            assert(data@.skip(i as int).skip(1) =~= data@.skip(i + 1));
            // JavaScript files could be hosted on a different server:
            // only the main requests are checked, to avoid false positives.
            if url_response.request_type == UrlRequestType::Default {
                // Check in HTTP headers first
                let header_finding_tmp = self.check_http_headers(url_response);
                if header_finding_tmp.is_some() {
                    header_finding = header_finding_tmp;
                }
                if let Some(f) = &header_finding {
                    if f.version.is_some() {
                        return vec![header_finding.unwrap()];
                    }
                }
                // Check in response body then
                let body_finding_tmp = self.check_http_body(url_response);
                if body_finding_tmp.is_some() {
                    body_finding = body_finding_tmp;
                }
                if let Some(f) = &body_finding {
                    if f.version.is_some() {
                        return vec![body_finding.unwrap()];
                    }
                }
            }
            i += 1;
        }
        // If neither the header nor the body finding contains the version,
        // check if at least the technology was identified
        if header_finding.is_some() {
            vec![header_finding.unwrap()]
        } else if body_finding.is_some() {
            vec![body_finding.unwrap()]
        } else {
            Vec::new()
        }
    }

    /// This checker supports Apache httpd
    pub fn get_technology(&self) -> (r: Technology)
        ensures
            r == Technology::Httpd,
    {
        Technology::Httpd
    }
}

/// The responses to main requests, in their order.
pub open spec fn default_responses(data: Seq<UrlResponse>) -> Seq<UrlResponse>
    decreases data.len(),
{
    if data.len() == 0 {
        Seq::empty()
    } else if data[0].request_type == UrlRequestType::Default {
        seq![data[0]] + default_responses(data.skip(1))
    } else {
        default_responses(data.skip(1))
    }
}

/// Whether a response to a main request reveals Apache httpd, in its
/// headers or in its body.
pub open spec fn reveals_technology(resp: UrlResponse) -> bool {
    &&& resp.request_type == UrlRequestType::Default
    &&& (spec_header_finding(resp) is Some || spec_body_finding(resp) is Some)
}

/// Whether a response to a main request reveals the version of Apache
/// httpd, in its headers or in its body.
pub open spec fn reveals_version(resp: UrlResponse) -> bool {
    &&& resp.request_type == UrlRequestType::Default
    &&& (has_version(spec_header_finding(resp)) || has_version(spec_body_finding(resp)))
}

/// Responses to JavaScript requests play no part in the scan: scanning
/// the responses gives what scanning only the responses to main requests
/// gives.
pub proof fn law_check_http_ignores_javascript(
    data: Seq<UrlResponse>,
    header: Option<FindingView>,
    body: Option<FindingView>,
)
    ensures
        http_scan(data, header, body) == http_scan(default_responses(data), header, body),
    decreases data.len(),
{
    if data.len() > 0 {
        let d = default_responses(data);
        if data[0].request_type == UrlRequestType::Default {
            assert(d[0] == data[0]);
            assert(d.skip(1) =~= default_responses(data.skip(1)));
            let header2 = latest(spec_header_finding(data[0]), header);
            let body2 = latest(spec_body_finding(data[0]), body);
            law_check_http_ignores_javascript(data.skip(1), header2, body2);
        } else {
            law_check_http_ignores_javascript(data.skip(1), header, body);
        }
    }
}

/// When some response to a main request reveals the version of Apache
/// httpd, the finding that the scan returns tells a version.
pub proof fn law_check_http_finds_version_when_revealed(
    data: Seq<UrlResponse>,
    header: Option<FindingView>,
    body: Option<FindingView>,
)
    requires
        exists|j: int| 0 <= j < data.len() && reveals_version(#[trigger] data[j]),
    ensures
        has_version(http_scan(data, header, body)),
    decreases data.len(),
{
    let j = choose|j: int| 0 <= j < data.len() && reveals_version(#[trigger] data[j]);
    if data[0].request_type != UrlRequestType::Default {
        assert(data.skip(1)[j - 1] == data[j]);
        law_check_http_finds_version_when_revealed(data.skip(1), header, body);
    } else {
        let header2 = latest(spec_header_finding(data[0]), header);
        let body2 = latest(spec_body_finding(data[0]), body);
        if !has_version(header2) && !has_version(body2) {
            assert(j != 0);
            assert(data.skip(1)[j - 1] == data[j]);
            law_check_http_finds_version_when_revealed(data.skip(1), header2, body2);
        }
    }
}

/// The scan finds nothing exactly when no response to a main request
/// reveals Apache httpd (and nothing was found before).
pub proof fn law_check_http_none_iff_not_revealed(
    data: Seq<UrlResponse>,
    header: Option<FindingView>,
    body: Option<FindingView>,
)
    ensures
        http_scan(data, header, body) is None <==> (header is None && body is None && forall|j: int|
            0 <= j < data.len() ==> !reveals_technology(#[trigger] data[j])),
    decreases data.len(),
{
    if data.len() > 0 {
        assert forall|j: int| 0 <= j < data.len() - 1 implies #[trigger] data.skip(1)[j] == data[j + 1] by {}
        if data[0].request_type != UrlRequestType::Default {
            law_check_http_none_iff_not_revealed(data.skip(1), header, body);
            if !(forall|j: int| 0 <= j < data.len() ==> !reveals_technology(#[trigger] data[j])) {
                let j = choose|j: int| 0 <= j < data.len() && reveals_technology(#[trigger] data[j]);
                assert(reveals_technology(data.skip(1)[j - 1]));
            }
        } else {
            let header2 = latest(spec_header_finding(data[0]), header);
            let body2 = latest(spec_body_finding(data[0]), body);
            law_check_http_none_iff_not_revealed(data.skip(1), header2, body2);
            if !(forall|j: int| 0 <= j < data.len() ==> !reveals_technology(#[trigger] data[j])) {
                let j = choose|j: int| 0 <= j < data.len() && reveals_technology(#[trigger] data[j]);
                if j > 0 {
                    assert(reveals_technology(data.skip(1)[j - 1]));
                }
            }
        }
    }
}

/// Every finding that the header and body regexes make is about Apache httpd.
pub proof fn lemma_findings_are_httpd(resp: UrlResponse)
    ensures
        spec_header_finding(resp) matches Some(f) ==> f.technology == Technology::Httpd,
        spec_body_finding(resp) matches Some(f) ==> f.technology == Technology::Httpd,
{
    lemma_first_header_finding_is_httpd(
        requested_headers(string_pairs_view(resp.headers@), header_names()),
        resp.url@,
    );
}

proof fn lemma_first_header_finding_is_httpd(headers: Seq<(Seq<char>, Seq<char>)>, url: Seq<char>)
    ensures
        first_header_finding(headers, url) matches Some(f) ==> f.technology == Technology::Httpd,
    decreases headers.len(),
{
    if headers.len() > 0 {
        lemma_first_header_finding_is_httpd(headers.skip(1), url);
    }
}

/// The finding that the scan returns is about Apache httpd.
pub proof fn law_check_http_finds_httpd(
    data: Seq<UrlResponse>,
    header: Option<FindingView>,
    body: Option<FindingView>,
)
    requires
        header matches Some(f) ==> f.technology == Technology::Httpd,
        body matches Some(f) ==> f.technology == Technology::Httpd,
    ensures
        http_scan(data, header, body) matches Some(f) ==> f.technology == Technology::Httpd,
    decreases data.len(),
{
    if data.len() > 0 {
        lemma_findings_are_httpd(data[0]);
        if data[0].request_type != UrlRequestType::Default {
            law_check_http_finds_httpd(data.skip(1), header, body);
        } else {
            let header2 = latest(spec_header_finding(data[0]), header);
            let body2 = latest(spec_body_finding(data[0]), body);
            law_check_http_finds_httpd(data.skip(1), header2, body2);
        }
    }
}

/// The first finding that tells a version, looking at the responses in
/// order and, in each, at the headers before the body.
pub open spec fn first_versioned_finding(d: Seq<UrlResponse>) -> Option<FindingView>
    decreases d.len(),
{
    if d.len() == 0 {
        None
    } else if has_version(spec_header_finding(d[0])) {
        spec_header_finding(d[0])
    } else if has_version(spec_body_finding(d[0])) {
        spec_body_finding(d[0])
    } else {
        first_versioned_finding(d.skip(1))
    }
}

/// The header finding of the last response that gives one.
pub open spec fn last_header_finding(d: Seq<UrlResponse>) -> Option<FindingView>
    decreases d.len(),
{
    if d.len() == 0 {
        None
    } else {
        latest(last_header_finding(d.skip(1)), spec_header_finding(d[0]))
    }
}

/// The body finding of the last response that gives one.
pub open spec fn last_body_finding(d: Seq<UrlResponse>) -> Option<FindingView>
    decreases d.len(),
{
    if d.len() == 0 {
        None
    } else {
        latest(last_body_finding(d.skip(1)), spec_body_finding(d[0]))
    }
}

/// What a scan of responses to main requests finds: the first finding that
/// tells a version (a response's headers before its body); else the header
/// finding of the last response that gives one; else the body finding of
/// the last response that gives one; else nothing.
pub open spec fn scan_outcome(d: Seq<UrlResponse>) -> Option<FindingView> {
    if first_versioned_finding(d) is Some {
        first_versioned_finding(d)
    } else {
        latest(last_header_finding(d), last_body_finding(d))
    }
}

proof fn lemma_default_responses_are_default(data: Seq<UrlResponse>)
    ensures
        forall|i: int| 0 <= i < default_responses(data).len()
            ==> (#[trigger] default_responses(data)[i]).request_type == UrlRequestType::Default,
    decreases data.len(),
{
    if data.len() > 0 {
        lemma_default_responses_are_default(data.skip(1));
        let rest = default_responses(data.skip(1));
        if data[0].request_type == UrlRequestType::Default {
            assert forall|i: int| 0 <= i < default_responses(data).len()
                implies (#[trigger] default_responses(data)[i]).request_type == UrlRequestType::Default by {
                if i > 0 {
                    assert(default_responses(data)[i] == rest[i - 1]);
                }
            }
        }
    }
}

proof fn lemma_scan_of_main_responses(d: Seq<UrlResponse>, header: Option<FindingView>, body: Option<FindingView>)
    requires
        forall|i: int| 0 <= i < d.len() ==> (#[trigger] d[i]).request_type == UrlRequestType::Default,
        !has_version(header),
        !has_version(body),
    ensures
        http_scan(d, header, body) == if first_versioned_finding(d) is Some {
            first_versioned_finding(d)
        } else {
            latest(latest(last_header_finding(d), header), latest(last_body_finding(d), body))
        },
    decreases d.len(),
{
    if d.len() > 0 {
        assert(d[0].request_type == UrlRequestType::Default);
        let header2 = latest(spec_header_finding(d[0]), header);
        let body2 = latest(spec_body_finding(d[0]), body);
        if !has_version(spec_header_finding(d[0])) && !has_version(spec_body_finding(d[0])) {
            assert forall|i: int| 0 <= i < d.skip(1).len() implies (#[trigger] d.skip(1)[i]).request_type
                == UrlRequestType::Default by {
                assert(d.skip(1)[i] == d[i + 1]);
            }
            lemma_scan_of_main_responses(d.skip(1), header2, body2);
        }
    }
}

/// The scan returns the first finding that tells a version among the
/// responses to main requests (a response's headers before its body);
/// failing that, the header finding of the last response that gives one;
/// failing that, the body finding of the last response that gives one;
/// failing that, nothing.
pub proof fn law_check_http_outcome(data: Seq<UrlResponse>)
    ensures
        http_scan(data, None, None) == scan_outcome(default_responses(data)),
{
    law_check_http_ignores_javascript(data, None, None);
    lemma_default_responses_are_default(data);
    lemma_scan_of_main_responses(default_responses(data), None, None);
}

/// The header finding of a response depends only on its headers and its
/// URL; it is about Apache httpd and was found at the URL of the response.
pub proof fn law_header_finding_fields(r1: UrlResponse, r2: UrlResponse)
    requires
        string_pairs_view(r1.headers@) == string_pairs_view(r2.headers@),
        r1.url@ == r2.url@,
    ensures
        spec_header_finding(r1) == spec_header_finding(r2),
        spec_header_finding(r1) matches Some(f) ==> f.technology == Technology::Httpd
            && f.url_of_finding == Some(r1.url@),
{
    lemma_first_header_finding_fields(
        requested_headers(string_pairs_view(r1.headers@), header_names()),
        r1.url@,
    );
}

proof fn lemma_first_header_finding_fields(headers: Seq<(Seq<char>, Seq<char>)>, url: Seq<char>)
    ensures
        first_header_finding(headers, url) matches Some(f) ==> f.technology == Technology::Httpd
            && f.url_of_finding == Some(url),
    decreases headers.len(),
{
    if headers.len() > 0 {
        lemma_first_header_finding_fields(headers.skip(1), url);
    }
}

/// The body finding of a response depends only on its body and its URL;
/// it is about Apache httpd and was found at the URL of the response.
pub proof fn law_body_finding_fields(r1: UrlResponse, r2: UrlResponse)
    requires
        r1.body@ == r2.body@,
        r1.url@ == r2.url@,
    ensures
        spec_body_finding(r1) == spec_body_finding(r2),
        spec_body_finding(r1) matches Some(f) ==> f.technology == Technology::Httpd
            && f.url_of_finding == Some(r1.url@),
{
}

} // verus!

//! HTTP requests to send to an asset, and the responses it returned.

use vstd::prelude::*;

verus! {

// ---------------------------------------------------------------------
// Spec helpers on character sequences
// ---------------------------------------------------------------------

/// Index of the first `c` in `s` at or after `i`; `s.len()` when there is none.
pub open spec fn index_of_from(s: Seq<char>, c: char, i: int) -> int
    decreases s.len() - i,
{
    if i >= s.len() {
        s.len() as int
    } else if s[i] == c {
        i
    } else {
        index_of_from(s, c, i + 1)
    }
}

/// Index of the last `c` in `s` strictly before `end`; `-1` when there is none.
pub open spec fn last_index_before(s: Seq<char>, c: char, end: int) -> int
    decreases end,
{
    if end <= 0 {
        -1
    } else if s[end - 1] == c {
        end - 1
    } else {
        last_index_before(s, c, end - 1)
    }
}

/// Whether `"://"` starts at index `i` of `s`.
pub open spec fn scheme_separator_at(s: Seq<char>, i: int) -> bool {
    0 <= i && i + 3 <= s.len() && s[i] == ':' && s[i + 1] == '/' && s[i + 2] == '/'
}

/// Index of the first `"://"` in `s` at or after `i`; `s.len()` when there is none.
pub open spec fn scheme_separator_from(s: Seq<char>, i: int) -> int
    decreases s.len() - i,
{
    if i + 3 > s.len() {
        s.len() as int
    } else if scheme_separator_at(s, i) {
        i
    } else {
        scheme_separator_from(s, i + 1)
    }
}

/// Whether `c` starts the query or the fragment of a URL.
pub open spec fn ends_url_path(c: char) -> bool {
    c == '?' || c == '#'
}

/// Index of the first `?` or `#` in `s` at or after `i`; `s.len()` when there is none.
pub open spec fn path_end_from(s: Seq<char>, i: int) -> int
    decreases s.len() - i,
{
    if i >= s.len() {
        s.len() as int
    } else if ends_url_path(s[i]) {
        i
    } else {
        path_end_from(s, i + 1)
    }
}

/// A URL without its query and its fragment.
pub open spec fn url_without_query(u: Seq<char>) -> Seq<char> {
    u.take(path_end_from(u, 0))
}

/// Length of the origin (scheme and authority) of a URL without query:
/// up to the first `/` after `"://"`; the whole URL when it has no path.
pub open spec fn origin_len(u: Seq<char>) -> int {
    let sep = scheme_separator_from(u, 0);
    if sep >= u.len() {
        u.len() as int
    } else {
        index_of_from(u, '/', sep + 3)
    }
}

/// The URL that `path` designates relative to `base`: a path that starts
/// with `/` replaces the whole path of `base`; any other path replaces the
/// last segment of the path of `base`. The query and fragment of `base`
/// are dropped.
pub open spec fn resolve_path(base: Seq<char>, path: Seq<char>) -> Seq<char> {
    let u = url_without_query(base);
    let o = origin_len(u);
    if path.len() > 0 && path[0] == '/' {
        u.take(o) + path
    } else if o >= u.len() {
        u + "/"@ + path
    } else {
        u.take(last_index_before(u, '/', u.len() as int) + 1) + path
    }
}

// ---------------------------------------------------------------------
// Lemmas on the helpers
// ---------------------------------------------------------------------

proof fn lemma_index_of_from_bounds(s: Seq<char>, c: char, i: int)
    requires
        0 <= i <= s.len(),
    ensures
        i <= index_of_from(s, c, i) <= s.len(),
        index_of_from(s, c, i) < s.len() ==> s[index_of_from(s, c, i)] == c,
    decreases s.len() - i,
{
    if i < s.len() && s[i] != c {
        lemma_index_of_from_bounds(s, c, i + 1);
    }
}

proof fn lemma_last_index_before_bounds(s: Seq<char>, c: char, end: int)
    requires
        0 <= end <= s.len(),
    ensures
        -1 <= last_index_before(s, c, end) < end,
        last_index_before(s, c, end) >= 0 ==> s[last_index_before(s, c, end)] == c,
        forall|j: int| 0 <= j < end && s[j] == c ==> j <= last_index_before(s, c, end),
    decreases end,
{
    if end > 0 && s[end - 1] != c {
        lemma_last_index_before_bounds(s, c, end - 1);
    }
}

proof fn lemma_scheme_separator_bounds(s: Seq<char>, i: int)
    requires
        0 <= i <= s.len(),
    ensures
        i <= scheme_separator_from(s, i) <= s.len(),
        scheme_separator_from(s, i) < s.len() ==> scheme_separator_at(s, scheme_separator_from(s, i)),
    decreases s.len() - i,
{
    if i + 3 <= s.len() && !scheme_separator_at(s, i) {
        lemma_scheme_separator_bounds(s, i + 1);
    }
}

proof fn lemma_path_end_bounds(s: Seq<char>, i: int)
    requires
        0 <= i <= s.len(),
    ensures
        i <= path_end_from(s, i) <= s.len(),
    decreases s.len() - i,
{
    if i < s.len() && !ends_url_path(s[i]) {
        lemma_path_end_bounds(s, i + 1);
    }
}

/// A path resolved against a URL ends with the path itself, after a
/// prefix of the URL (without its query and fragment), or after that URL
/// and a `/` when the URL has no path.
pub proof fn law_resolved_url_ends_with_path(base: Seq<char>, path: Seq<char>)
    ensures
        ({
            let r = resolve_path(base, path);
            let u = url_without_query(base);
            let pre = r.take(r.len() - path.len());
            &&& path.len() <= r.len()
            &&& r.skip(r.len() - path.len()) == path
            &&& (pre.len() <= u.len() && pre == u.take(pre.len() as int)) || pre == u + "/"@
        }),
{
    let u = url_without_query(base);
    lemma_path_end_bounds(base, 0);
    lemma_scheme_separator_bounds(u, 0);
    let sep = scheme_separator_from(u, 0);
    if sep < u.len() {
        lemma_index_of_from_bounds(u, '/', sep + 3);
    }
    lemma_last_index_before_bounds(u, '/', u.len() as int);
    let r = resolve_path(base, path);
    let o = origin_len(u);
    if path.len() > 0 && path[0] == '/' {
        assert(r.skip(r.len() - path.len()) =~= path);
        assert(r.take(r.len() - path.len()) =~= u.take(o));
    } else if o >= u.len() {
        assert(r.skip(r.len() - path.len()) =~= path);
        assert(r.take(r.len() - path.len()) =~= u + "/"@);
    } else {
        let l = last_index_before(u, '/', u.len() as int) + 1;
        assert(r.skip(r.len() - path.len()) =~= path);
        assert(r.take(r.len() - path.len()) =~= u.take(l));
    }
}

// ---------------------------------------------------------------------
// Executable search helpers
// ---------------------------------------------------------------------

fn find_char_from(s: &str, n: usize, c: char, from: usize) -> (r: usize)
    requires
        n == s@.len(),
        from <= n,
    ensures
        r == index_of_from(s@, c, from as int),
{
    let mut i = from;
    while i < n
        invariant
            n == s@.len(),
            from <= i <= n,
            index_of_from(s@, c, from as int) == index_of_from(s@, c, i as int),
        decreases n - i,
    {
        if s.get_char(i) == c {
            return i;
        }
        i += 1;
    }
    i
}

fn find_last_char_before(s: &str, c: char, end: usize) -> (r: usize)
    requires
        end <= s@.len(),
    ensures
        r == last_index_before(s@, c, end as int) + 1,
{
    let mut e = end;
    while e > 0
        invariant
            e <= end <= s@.len(),
            last_index_before(s@, c, end as int) == last_index_before(s@, c, e as int),
        decreases e,
    {
        if s.get_char(e - 1) == c {
            return e;
        }
        e -= 1;
    }
    0
}

fn find_scheme_separator(s: &str, n: usize) -> (r: usize)
    requires
        n == s@.len(),
    ensures
        r == scheme_separator_from(s@, 0),
{
    let mut i: usize = 0;
    while n >= 3 && i <= n - 3
        invariant
            n == s@.len(),
            scheme_separator_from(s@, 0) == scheme_separator_from(s@, i as int),
            n >= 3 ==> i <= n - 2,
        decreases n - i,
    {
        if s.get_char(i) == ':' && s.get_char(i + 1) == '/' && s.get_char(i + 2) == '/' {
            return i;
        }
        i += 1;
    }
    n
}

fn find_path_end(s: &str, n: usize) -> (r: usize)
    requires
        n == s@.len(),
    ensures
        r == path_end_from(s@, 0),
{
    let mut i: usize = 0;
    while i < n
        invariant
            n == s@.len(),
            i <= n,
            path_end_from(s@, 0) == path_end_from(s@, i as int),
        decreases n - i,
    {
        let c = s.get_char(i);
        if c == '?' || c == '#' {
            return i;
        }
        i += 1;
    }
    n
}

// ---------------------------------------------------------------------
// Requests
// ---------------------------------------------------------------------

/// An HTTP request to send: the URL, and whether the JavaScript files
/// that the page references must be fetched too.
#[derive(Clone, Debug)]
pub struct UrlRequest {
    /// The URL to request.
    pub url: String,
    /// Whether the JavaScript files of the page must be fetched too.
    pub fetch_js: bool,
}

impl View for UrlRequest {
    type V = (Seq<char>, bool);

    open spec fn view(&self) -> (Seq<char>, bool) {
        (self.url@, self.fetch_js)
    }
}

impl UrlRequest {
    /// A request of the given URL itself.
    pub fn new(url: &str, fetch_js: bool) -> (r: UrlRequest)
        ensures
            r@ == (url@, fetch_js),
    {
        UrlRequest { url: url.to_owned(), fetch_js }
    }

    /// A request of `path` relative to `main_url`: a path that starts with
    /// `/` is taken from the root of the host of `main_url`, any other path
    /// from the directory of `main_url`.
    pub fn from_path(main_url: &str, path: &str, fetch_js: bool) -> (r: UrlRequest)
        ensures
            r@ == (resolve_path(main_url@, path@), fetch_js),
    {
        let n = main_url.unicode_len();
        let q = find_path_end(main_url, n);
        proof {
            lemma_path_end_bounds(main_url@, 0);
        }
        let u = main_url.substring_char(0, q);
        assert(u@ == url_without_query(main_url@));
        let sep = find_scheme_separator(u, q);
        proof {
            lemma_scheme_separator_bounds(u@, 0);
        }
        let o = if sep >= q {
            q
        } else {
            find_char_from(u, q, '/', sep + 3)
        };
        assert(o == origin_len(u@));
        proof {
            if sep < q {
                lemma_index_of_from_bounds(u@, '/', sep + 3);
            }
        }
        let starts_with_slash = path.unicode_len() > 0 && path.get_char(0) == '/';
        let url = if starts_with_slash {
            let origin = u.substring_char(0, o).to_owned();
            origin.concat(path)
        } else if o >= q {
            let dir = u.to_owned().concat("/");
            dir.concat(path)
        } else {
            let last = find_last_char_before(u, '/', q);
            proof {
                lemma_last_index_before_bounds(u@, '/', q as int);
                lemma_index_of_from_bounds(u@, '/', sep + 3);
            }
            let dir = u.substring_char(0, last).to_owned();
            dir.concat(path)
        };
        proof {
            reveal_strlit("/");
        }
        UrlRequest { url, fetch_js }
    }
}

// ---------------------------------------------------------------------
// Responses
// ---------------------------------------------------------------------

/// The kind of a request: a main request, or the request of a JavaScript
/// file referenced by a page.
#[derive(Clone, Copy, Debug, PartialEq, Eq, Structural)]
pub enum UrlRequestType {
    /// A main request.
    Default,
    /// The request of a JavaScript file referenced by a page.
    JavaScript,
}

/// The code of a character once ASCII upper-case letters are lowered.
pub open spec fn lower_code(c: char) -> u32 {
    if 'A' <= c && c <= 'Z' {
        (c as u32 + 32) as u32
    } else {
        c as u32
    }
}

/// Whether two header names are equal, ignoring ASCII case.
pub open spec fn names_equal_ignoring_case(a: Seq<char>, b: Seq<char>) -> bool {
    a.len() == b.len() && forall|i: int| 0 <= i < a.len() ==> lower_code(#[trigger] a[i]) == lower_code(b[i])
}

/// Whether a header name is one of `names`, ignoring ASCII case.
pub open spec fn header_requested(name: Seq<char>, names: Seq<Seq<char>>) -> bool {
    exists|k: int| 0 <= k < names.len() && names_equal_ignoring_case(name, #[trigger] names[k])
}

/// The headers, in their order, whose name is one of `names`.
pub open spec fn requested_headers(
    headers: Seq<(Seq<char>, Seq<char>)>,
    names: Seq<Seq<char>>,
) -> Seq<(Seq<char>, Seq<char>)>
    decreases headers.len(),
{
    if headers.len() == 0 {
        Seq::empty()
    } else {
        let rest = requested_headers(headers.drop_last(), names);
        if header_requested(headers.last().0, names) {
            rest.push(headers.last())
        } else {
            rest
        }
    }
}

/// Whether no two headers have the same name.
pub open spec fn distinct_header_names(headers: Seq<(Seq<char>, Seq<char>)>) -> bool {
    forall|i: int, j: int| 0 <= i < j < headers.len() ==> #[trigger] headers[i].0 != #[trigger] headers[j].0
}

/// Whether no two headers have names that are equal, ignoring ASCII case.
pub open spec fn distinct_names_ignoring_case(headers: Seq<(Seq<char>, Seq<char>)>) -> bool {
    forall|i: int, j: int|
        0 <= i < j < headers.len() ==> !names_equal_ignoring_case(#[trigger] headers[i].0, #[trigger] headers[j].0)
}

/// Every header selected from `headers` is one of `headers`.
proof fn lemma_requested_headers_from(headers: Seq<(Seq<char>, Seq<char>)>, names: Seq<Seq<char>>)
    ensures
        forall|x: int| 0 <= x < requested_headers(headers, names).len() ==> exists|k: int|
            0 <= k < headers.len() && headers[k] == #[trigger] requested_headers(headers, names)[x],
    decreases headers.len(),
{
    if headers.len() > 0 {
        let rest = requested_headers(headers.drop_last(), names);
        lemma_requested_headers_from(headers.drop_last(), names);
        assert forall|x: int| 0 <= x < requested_headers(headers, names).len() implies exists|k: int|
            0 <= k < headers.len() && headers[k] == #[trigger] requested_headers(headers, names)[x] by {
            if x < rest.len() {
                let k = choose|k: int| 0 <= k < headers.drop_last().len() && headers.drop_last()[k] == #[trigger] rest[x];
                assert(headers[k] == requested_headers(headers, names)[x]);
            } else {
                assert(headers[headers.len() - 1] == requested_headers(headers, names)[x]);
            }
        }
    }
}

/// When no two headers have names equal ignoring ASCII case, the same
/// holds of the headers selected from them: `get_headers` then gives at
/// most one value per requested name.
pub proof fn law_requested_headers_distinct(headers: Seq<(Seq<char>, Seq<char>)>, names: Seq<Seq<char>>)
    requires
        distinct_names_ignoring_case(headers),
    ensures
        distinct_names_ignoring_case(requested_headers(headers, names)),
    decreases headers.len(),
{
    if headers.len() > 0 {
        let init = headers.drop_last();
        assert(distinct_names_ignoring_case(init)) by {
            assert forall|i: int, j: int| 0 <= i < j < init.len() implies
                !names_equal_ignoring_case(#[trigger] init[i].0, #[trigger] init[j].0) by {
                assert(init[i] == headers[i] && init[j] == headers[j]);
            }
        }
        law_requested_headers_distinct(init, names);
        let rest = requested_headers(init, names);
        if header_requested(headers.last().0, names) {
            lemma_requested_headers_from(init, names);
            let r = rest.push(headers.last());
            assert forall|i: int, j: int| 0 <= i < j < r.len() implies
                !names_equal_ignoring_case(#[trigger] r[i].0, #[trigger] r[j].0) by {
                if j < rest.len() {
                    assert(r[i] == rest[i] && r[j] == rest[j]);
                } else {
                    assert(r[i] == rest[i]);
                    let k = choose|k: int| 0 <= k < init.len() && init[k] == #[trigger] rest[i];
                    assert(headers[k] == r[i]);
                    assert(headers[headers.len() - 1] == r[j]);
                }
            }
        }
    }
}

/// The view of a list of pairs of strings.
pub open spec fn string_pairs_view(h: Seq<(String, String)>) -> Seq<(Seq<char>, Seq<char>)> {
    h.map_values(|p: (String, String)| (p.0@, p.1@))
}

fn lower_code_of(c: char) -> (r: u32)
    ensures
        r == lower_code(c),
{
    if 'A' <= c && c <= 'Z' {
        (c as u32) + 32
    } else {
        c as u32
    }
}

fn equal_ignoring_case(a: &str, b: &str) -> (r: bool)
    ensures
        r == names_equal_ignoring_case(a@, b@),
{
    let n = a.unicode_len();
    if n != b.unicode_len() {
        return false;
    }
    let mut i: usize = 0;
    while i < n
        invariant
            n == a@.len() == b@.len(),
            i <= n,
            forall|j: int| 0 <= j < i ==> lower_code(#[trigger] a@[j]) == lower_code(b@[j]),
        decreases n - i,
    {
        if lower_code_of(a.get_char(i)) != lower_code_of(b.get_char(i)) {
            return false;
        }
        i += 1;
    }
    true
}

fn is_requested(name: &str, names: &Vec<String>) -> (r: bool)
    ensures
        r == header_requested(name@, names@.map_values(|n: String| n@)),
{
    let ghost nv = names@.map_values(|n: String| n@);
    let mut k: usize = 0;
    while k < names.len()
        invariant
            k <= names@.len(),
            nv == names@.map_values(|n: String| n@),
            forall|j: int| 0 <= j < k ==> !names_equal_ignoring_case(name@, #[trigger] nv[j]),
        decreases names.len() - k,
    {
        if equal_ignoring_case(name, names[k].as_str()) {
            assert(names_equal_ignoring_case(name@, nv[k as int]));
            return true;
        }
        k += 1;
    }
    false
}

/// The response an asset returned to a request.
pub struct UrlResponse {
    /// The URL that was requested.
    pub url: String,
    /// The HTTP headers of the response, as (name, value) pairs.
    pub headers: Vec<(String, String)>,
    /// The body of the response.
    pub body: String,
    /// The kind of the request.
    pub request_type: UrlRequestType,
    /// The HTTP status code.
    pub status_code: u16,
}

impl UrlResponse {
    /// Whether the headers of the response have distinct names: the
    /// headers of a response are a map from names to values.
    pub open spec fn well_formed(self) -> bool {
        distinct_header_names(string_pairs_view(self.headers@))
    }

    /// Creates a new response.
    pub fn new(
        url: &str,
        headers: Vec<(String, String)>,
        body: &str,
        request_type: UrlRequestType,
        status_code: u16,
    ) -> (r: UrlResponse)
        requires
            distinct_header_names(string_pairs_view(headers@)),
        ensures
            r.well_formed(),
            r.url@ == url@,
            r.headers@ == headers@,
            r.body@ == body@,
            r.request_type == request_type,
            r.status_code == status_code,
    {
        UrlResponse { url: url.to_owned(), headers, body: body.to_owned(), request_type, status_code }
    }

    /// The headers of the response, in their order, whose name is one of
    /// `names`, ignoring ASCII case.
    pub fn get_headers(&self, names: &Vec<String>) -> (r: Vec<(String, String)>)
        ensures
            string_pairs_view(r@) == requested_headers(string_pairs_view(self.headers@), names@.map_values(|n: String| n@)),
    {
        let ghost hv = string_pairs_view(self.headers@);
        let ghost nv = names@.map_values(|n: String| n@);
        let mut found: Vec<(String, String)> = Vec::new();
        let mut i: usize = 0;
        while i < self.headers.len()
            invariant
                i <= self.headers@.len(),
                hv == string_pairs_view(self.headers@),
                nv == names@.map_values(|n: String| n@),
                string_pairs_view(found@) == requested_headers(hv.take(i as int), nv),
            decreases self.headers.len() - i,
        {
            let (name, value) = &self.headers[i];
            assert(hv.take(i + 1).drop_last() =~= hv.take(i as int));
            assert(hv.take(i + 1).last() == hv[i as int]);
            if is_requested(name.as_str(), names) {
                let ghost before = found@;
                found.push((name.clone(), value.clone()));
                assert(string_pairs_view(found@) =~= string_pairs_view(before).push(hv[i as int]));
            }
            i += 1;
        }
        assert(hv.take(self.headers@.len() as int) =~= hv);
        found
    }
}

} // verus!

use sanca_software::checkers::httpd::ApacheHttpdChecker;
use sanca_software::models::reqres::{UrlRequestType, UrlResponse};
use sanca_software::models::technology::Technology;
use sanca_software::models::Finding;

fn check_finding_fields(
    finding: &Finding,
    evidence: &str,
    technology: Technology,
    version: Option<&str>,
    url_of_finding: Option<&str>,
) {
    assert!(
        finding.evidence.contains(evidence),
        "evidence {:?} does not contain {:?}",
        finding.evidence,
        evidence
    );
    assert_eq!(technology, finding.technology);
    assert_eq!(version.map(|v| v.to_string()), finding.version);
    assert_eq!(url_of_finding.map(|u| u.to_string()), finding.url_of_finding);
}

fn header(name: &str, value: &str) -> (String, String) {
    (name.to_string(), value.to_string())
}

#[test]
fn source_code_matches() {
    let checker = ApacheHttpdChecker::new();
    let body1 = r#"<p><address>Apache Server at www.test-domain.com Port 80</address></p>"#;
    let url1 = "https://www.example.com/pageNotFound";
    let mut url_response_valid =
        UrlResponse::new(url1, Vec::new(), body1, UrlRequestType::Default, 200);
    let finding = checker.check_http_body(&url_response_valid);
    assert!(finding.is_some());
    check_finding_fields(
        &finding.unwrap(),
        "Apache Server",
        Technology::Httpd,
        None,
        Some(url1),
    );

    let body2 = r#"<p><address>Apache/2.4.52 (Debian) Server at <a href="mailto:webmaster@test-domain.com">www.test-domain.com</a> Port 80</address></p>"#;
    url_response_valid.body = body2.to_string();
    let finding = checker.check_http_body(&url_response_valid);
    assert!(finding.is_some());
    check_finding_fields(
        &finding.unwrap(),
        "Apache/2.4.52",
        Technology::Httpd,
        Some("2.4.52"),
        Some(url1),
    );
}

#[test]
fn source_code_doesnt_match() {
    let checker = ApacheHttpdChecker::new();
    let body = r#"<address>Apache 2.4.52 server</address>"#;
    let url_response_invalid = UrlResponse::new(
        "https://www.example.com/not-found.php?abc=def",
        Vec::new(),
        body,
        UrlRequestType::Default,
        200,
    );
    let finding = checker.check_http_body(&url_response_invalid);
    assert!(finding.is_none());
}

#[test]
fn header_matches() {
    let checker = ApacheHttpdChecker::new();
    let headers1 = vec![header("Accept", "text/html"), header("Server", "Apache/2.4.52")];
    let url1 = "https://www.example.com/that.php?abc=def";
    let mut url_response_valid =
        UrlResponse::new(url1, headers1, "the body", UrlRequestType::Default, 200);
    let finding = checker.check_http_headers(&url_response_valid);
    assert!(finding.is_some());
    check_finding_fields(
        &finding.unwrap(),
        "Apache/2.4.52",
        Technology::Httpd,
        Some("2.4.52"),
        Some(url1),
    );

    let headers2 = vec![
        header("Accept", "text/html"),
        header("Server", "Apache/2.4.52 (CentOS)"),
    ];
    url_response_valid.headers = headers2;
    let finding = checker.check_http_headers(&url_response_valid);
    assert!(finding.is_some());
    check_finding_fields(
        &finding.unwrap(),
        "Apache/2.4.52",
        Technology::Httpd,
        Some("2.4.52"),
        Some(url1),
    );
}

#[test]
fn header_doesnt_match() {
    let checker = ApacheHttpdChecker::new();
    let headers1 = vec![header("Accept", "text/html"), header("Server", "nginx/1.22.0")];
    let mut url_response_invalid = UrlResponse::new(
        "https://www.example.com/that.php?abc=def",
        headers1,
        "the body",
        UrlRequestType::Default,
        200,
    );
    let finding = checker.check_http_headers(&url_response_invalid);
    assert!(finding.is_none());

    let headers2 = vec![header("Accept", "text/html")];
    url_response_invalid.headers = headers2;
    url_response_invalid.request_type = UrlRequestType::JavaScript;
    let finding = checker.check_http_headers(&url_response_invalid);
    assert!(finding.is_none());
}

#[test]
fn finds_match_in_url_responses() {
    let checker = ApacheHttpdChecker::new();
    let body1 = r#"<address>Apache Server at www.test-domain.com Port 80</address>"#;
    let url1 = "https://www.example.com/pageNotFound.html";
    let url_response_valid =
        UrlResponse::new(url1, Vec::new(), body1, UrlRequestType::Default, 200);
    let url_response_invalid = UrlResponse::new(
        "https://www.example.com/invalid/path.php",
        Vec::new(),
        "nothing to find in body",
        UrlRequestType::Default,
        200,
    );
    let findings = checker.check_http(&[url_response_invalid, url_response_valid]);
    assert_eq!(1, findings.len());
    check_finding_fields(
        &findings[0],
        "Apache Server",
        Technology::Httpd,
        None,
        Some(url1),
    );

    let headers1 = vec![header("Accept", "text/html"), header("Server", "Apache/2.4.52")];
    let url2 = "https://www.example.com/test.php";
    let url_response_valid =
        UrlResponse::new(url2, headers1, "the body", UrlRequestType::Default, 200);
    let url_response_invalid = UrlResponse::new(
        "https://www.example.com/invalid/path.php",
        Vec::new(),
        "nothing to find in body",
        UrlRequestType::Default,
        200,
    );
    let findings = checker.check_http(&[url_response_valid, url_response_invalid]);
    assert_eq!(1, findings.len());
    check_finding_fields(
        &findings[0],
        "Apache/2.4.52",
        Technology::Httpd,
        Some("2.4.52"),
        Some(url2),
    );
}

#[test]
fn doesnt_find_match_in_url_responses() {
    let checker = ApacheHttpdChecker::new();
    let body1 = r#"About Apache httpd 2.4.54"#;
    let url_response_invalid1 = UrlResponse::new(
        "https://www.example.com/abc/def1",
        Vec::new(),
        body1,
        UrlRequestType::Default,
        200,
    );

    let headers1 = vec![header("Accept", "text/html"), header("Server", "Apache/2.4.41")];
    let url_response_invalid2 = UrlResponse::new(
        "https://www.example.com/abc-1/de-f1",
        headers1,
        "the body",
        UrlRequestType::JavaScript,
        200,
    );
    let findings = checker.check_http(&[url_response_invalid1, url_response_invalid2]);
    assert!(
        findings.is_empty(),
        "Apache httpd must not be detected on JavaScript URLs to avoid false positive"
    );
}

// ---------------------------------------------------------------------
// Further scenarios
// ---------------------------------------------------------------------

#[test]
fn try_new_compiles_both_regexes() {
    assert!(ApacheHttpdChecker::try_new().is_some());
}

#[test]
fn header_names_are_matched_ignoring_case() {
    let checker = ApacheHttpdChecker::new();
    let headers = vec![header("x-powered-by", "Apache/2.4.41 (Ubuntu)")];
    let url = "https://www.example.com/";
    let resp = UrlResponse::new(url, headers, "", UrlRequestType::Default, 200);
    let finding = checker.check_http_headers(&resp).unwrap();
    check_finding_fields(&finding, "Apache/2.4.41", Technology::Httpd, Some("2.4.41"), Some(url));
    assert_eq!(
        finding.evidence_text,
        "Apachehttpd 2.4.41 has been identified using the HTTP header \"x-powered-by: Apache/2.4.41 (Ubuntu)\" returned at the following URL: https://www.example.com/"
    );
}

#[test]
fn body_finding_text_and_short_evidence() {
    let checker = ApacheHttpdChecker::new();
    let url = "https://www.example.com/missing";
    let body = "<address>Apache Server at localhost Port 80</address>";
    let resp = UrlResponse::new(url, Vec::new(), body, UrlRequestType::Default, 404);
    let finding = checker.check_http_body(&resp).unwrap();
    assert_eq!(finding.evidence, "Apache Server at localhost Port 80");
    assert_eq!(
        finding.evidence_text,
        "Apachehttpd has been identified by looking at its signature \"Apache Server at localhost Port 80\" at this page: https://www.example.com/missing"
    );
    assert!(finding.vulnerabilities.is_empty());
}

#[test]
fn long_body_evidence_is_shortened() {
    let checker = ApacheHttpdChecker::new();
    let url = "https://www.example.com/missing";
    let body = r#"<address>Apache/2.4.52 (Debian) Server at <a href="mailto:webmaster@test-domain.com">www.test-domain.com</a> Port 80</address>"#;
    let resp = UrlResponse::new(url, Vec::new(), body, UrlRequestType::Default, 404);
    let finding = checker.check_http_body(&resp).unwrap();
    let whole = r#"Apache/2.4.52 (Debian) Server at <a href="mailto:webmaster@test-domain.com">www.test-domain.com</a> Port 80"#;
    let n = whole.chars().count();
    assert!(n > 90);
    let expected: String = whole.chars().take(45).collect::<String>()
        + "[...]"
        + &whole.chars().skip(n - 45).collect::<String>();
    assert_eq!(finding.evidence, expected);
}

#[test]
fn header_version_wins_over_earlier_body_finding() {
    let checker = ApacheHttpdChecker::new();
    let body_only = UrlResponse::new(
        "https://www.example.com/a",
        Vec::new(),
        "<address>Apache Server at host Port 80</address>",
        UrlRequestType::Default,
        404,
    );
    let with_version = UrlResponse::new(
        "https://www.example.com/b",
        vec![header("Server", "Apache/2.4.57")],
        "",
        UrlRequestType::Default,
        200,
    );
    let findings = checker.check_http(&[body_only, with_version]);
    assert_eq!(1, findings.len());
    check_finding_fields(
        &findings[0],
        "Apache/2.4.57",
        Technology::Httpd,
        Some("2.4.57"),
        Some("https://www.example.com/b"),
    );
}

#[test]
fn header_finding_without_version_preferred_at_the_end() {
    let checker = ApacheHttpdChecker::new();
    let header_only = UrlResponse::new(
        "https://www.example.com/a",
        vec![header("Server", "Apache")],
        "",
        UrlRequestType::Default,
        200,
    );
    let body_only = UrlResponse::new(
        "https://www.example.com/b",
        Vec::new(),
        "<address>Apache Server at host Port 80</address>",
        UrlRequestType::Default,
        404,
    );
    let findings = checker.check_http(&[header_only, body_only]);
    assert_eq!(1, findings.len());
    check_finding_fields(
        &findings[0],
        "Apache",
        Technology::Httpd,
        None,
        Some("https://www.example.com/a"),
    );
}

#[test]
fn no_response_gives_no_finding() {
    let checker = ApacheHttpdChecker::new();
    assert!(checker.check_http(&[]).is_empty());
    assert_eq!(Technology::Httpd, checker.get_technology());
}

#[test]
fn last_header_finding_wins_without_version() {
    let checker = ApacheHttpdChecker::new();
    let first = UrlResponse::new(
        "https://www.example.com/a",
        vec![header("Server", "Apache")],
        "<address>Apache Server at host Port 80</address>",
        UrlRequestType::Default,
        200,
    );
    let second = UrlResponse::new(
        "https://www.example.com/b",
        vec![header("X-Powered-By", "Apache")],
        "",
        UrlRequestType::Default,
        200,
    );
    let findings = checker.check_http(&[first, second]);
    assert_eq!(1, findings.len());
    check_finding_fields(&findings[0], "Apache", Technology::Httpd, None, Some("https://www.example.com/b"));
    assert!(findings[0].vulnerabilities.is_empty());
}

#[test]
fn body_check_ignores_headers_and_request_type() {
    let checker = ApacheHttpdChecker::new();
    let body = "<address>Apache Server at host Port 80</address>";
    let a = UrlResponse::new("https://x/", Vec::new(), body, UrlRequestType::Default, 200);
    let b = UrlResponse::new(
        "https://x/",
        vec![header("Server", "nginx")],
        body,
        UrlRequestType::JavaScript,
        404,
    );
    let fa = checker.check_http_body(&a).unwrap();
    let fb = checker.check_http_body(&b).unwrap();
    assert_eq!(fa.evidence, fb.evidence);
    assert_eq!(fa.evidence_text, fb.evidence_text);
    assert!(fa == fb);
}

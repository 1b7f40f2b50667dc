use sanca_software::models::technology::Technology;
use sanca_software::models::{Finding, ScanType, Writers, CVE};

#[test]
fn scan_type_values() {
    assert_eq!(vec![ScanType::Tcp, ScanType::Http, ScanType::Udp], ScanType::value_variants());
    assert_eq!(Some("tcp".to_string()), ScanType::Tcp.to_possible_value());
    assert_eq!(Some("http".to_string()), ScanType::Http.to_possible_value());
    assert_eq!(Some("udp".to_string()), ScanType::Udp.to_possible_value());
}

#[test]
fn writers_values() {
    assert_eq!(vec![Writers::TextStdout, Writers::Csv, Writers::Json], Writers::value_variants());
    assert_eq!(Some("textstdout".to_string()), Writers::TextStdout.to_possible_value());
    assert_eq!(Some("csv".to_string()), Writers::Csv.to_possible_value());
    assert_eq!(Some("json".to_string()), Writers::Json.to_possible_value());
}

#[test]
fn finding_new_copies_fields() {
    let f = Finding::new(Technology::Nginx, Some("1.22.0"), "nginx/1.22.0", "text", Some("https://a/"));
    assert_eq!(Technology::Nginx, f.technology);
    assert_eq!(Some("1.22.0".to_string()), f.version);
    assert_eq!("nginx/1.22.0", f.evidence);
    assert_eq!("text", f.evidence_text);
    assert_eq!(Some("https://a/".to_string()), f.url_of_finding);
    assert!(f.vulnerabilities.is_empty());
}

#[test]
fn findings_equal_on_technology_and_version() {
    let a = Finding::new(Technology::Nginx, Some("1.22.0"), "x", "y", Some("https://a/"));
    let b = Finding::new(Technology::Nginx, Some("1.22.0"), "other", "other", None);
    let c = Finding::new(Technology::Nginx, None, "x", "y", Some("https://a/"));
    let d = Finding::new(Technology::Httpd, Some("1.22.0"), "x", "y", Some("https://a/"));
    assert!(a == b);
    assert!(a != c);
    assert!(a != d);
    assert!(c == c.clone());
}

#[test]
fn cve_takes_first_available_metric() {
    let cve = CVE::from_metrics("CVE-2012-6708", Some(vec![61, 70]), Some(vec![50]), Some(vec![43]));
    assert_eq!("CVE-2012-6708", cve.cve_id);
    assert_eq!(61, cve.base_score_tenths);
    assert_eq!("3.1", cve.cvss_version);

    let cve = CVE::from_metrics("CVE-1", None, Some(vec![98]), Some(vec![75]));
    assert_eq!(98, cve.base_score_tenths);
    assert_eq!("3.0", cve.cvss_version);

    let cve = CVE::from_metrics("CVE-2", None, None, Some(vec![75]));
    assert_eq!(75, cve.base_score_tenths);
    assert_eq!("2", cve.cvss_version);

    let cve = CVE::from_metrics("CVE-3", None, None, None);
    assert_eq!(0, cve.base_score_tenths);
    assert_eq!("", cve.cvss_version);
}

#[test]
fn cve_with_empty_present_list_has_no_score() {
    let cve = CVE::from_metrics("CVE-4", Some(vec![]), Some(vec![98]), Some(vec![75]));
    assert_eq!(0, cve.base_score_tenths);
    assert_eq!("", cve.cvss_version);
}

#[test]
fn cves_equal_on_identifier() {
    let a = CVE::from_metrics("CVE-5", Some(vec![10]), None, None);
    let b = CVE::from_metrics("CVE-5", None, None, Some(vec![20]));
    let c = CVE::from_metrics("CVE-6", Some(vec![10]), None, None);
    assert!(a == b);
    assert!(a != c);
}

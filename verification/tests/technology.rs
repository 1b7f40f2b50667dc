use sanca_software::models::technology::Technology;
use sanca_software::models::ScanType;
use std::collections::HashSet;

#[test]
fn openssh_supports_tcp() {
    let technology = Technology::OpenSSH;
    assert!(technology.supports_scan(ScanType::Tcp));
    assert!(!technology.supports_scan(ScanType::Http));
    assert!(!technology.supports_scan(ScanType::Udp));
}

#[test]
fn scans_of_technologies() {
    assert_eq!(vec![ScanType::Tcp], Technology::Dovecot.get_scans());
    assert_eq!(vec![ScanType::Tcp, ScanType::Http], Technology::OS.get_scans());
    assert_eq!(vec![ScanType::Http], Technology::JQuery.get_scans());
    assert!(Technology::OS.supports_scan(ScanType::Http));
}

#[test]
fn cpe_of_technologies() {
    let t = |a: &str, b: &str, c: &str| (a.to_string(), b.to_string(), c.to_string());
    assert_eq!(t("a", "jquery", "jquery"), Technology::JQuery.get_cpe_part_vendor_product());
    assert_eq!(t("a", "apache", "httpd_server"), Technology::Httpd.get_cpe_part_vendor_product());
    assert_eq!(t("o", "canonical", "ubuntu_linux"), Technology::Ubuntu.get_cpe_part_vendor_product());
    assert_eq!(t("", "", ""), Technology::OS.get_cpe_part_vendor_product());
    assert_eq!(
        t("a", "wordpress", "health_check_\\&_troubleshooting"),
        Technology::WPPHealthCheck.get_cpe_part_vendor_product()
    );
}

#[test]
fn non_http_technology_has_no_url_request() {
    assert!(Technology::OpenSSH.get_url_requests("https://example.com/").is_empty());
    assert!(Technology::MySQL.get_url_requests("https://example.com/").is_empty());
}

#[test]
fn every_http_technology_has_url_requests() {
    for t in Technology::value_variants() {
        let requests = t.get_url_requests("https://example.com/dir/page.php");
        assert_eq!(t.supports_scan(ScanType::Http), !requests.is_empty());
    }
}

#[test]
fn php_url_requests() {
    let requests = Technology::PHP.get_url_requests("https://example.com/dir/index.php?x=1");
    let urls: Vec<(String, bool)> = requests.iter().map(|r| (r.url.clone(), r.fetch_js)).collect();
    let expected = vec![
        ("https://example.com/dir/index.php?x=1", false),
        ("https://example.com/phpinfo.php", false),
        ("https://example.com/info.php", false),
        ("https://example.com/dir/phpinfo.php", false),
        ("https://example.com/dir/info.php", false),
        ("https://example.com/pageNotFoundNotFound", false),
        ("https://example.com/phpmyadmin/", false),
        ("https://example.com/dir/_profiler/phpinfo", false),
    ];
    let expected: Vec<(String, bool)> = expected.into_iter().map(|(u, b)| (u.to_string(), b)).collect();
    assert_eq!(expected, urls);
}

#[test]
fn javascript_library_fetches_main_url_with_js() {
    let requests = Technology::JQuery.get_url_requests("https://example.com");
    assert_eq!(1, requests.len());
    assert_eq!("https://example.com", requests[0].url);
    assert!(requests[0].fetch_js);
}

#[test]
fn phone_system_requests_webclient_with_js() {
    let requests = Technology::PhoneSystem3CX.get_url_requests("https://example.com");
    assert_eq!(1, requests.len());
    assert_eq!("https://example.com/webclient/", requests[0].url);
    assert!(requests[0].fetch_js);
}

#[test]
fn display_names() {
    assert_eq!("Apachehttpd", Technology::Httpd.to_string());
    assert_eq!("phpMyAdmin", Technology::PhpMyAdmin.to_string());
    assert_eq!("jQueryMobile", Technology::JQueryMobile.to_string());
}

#[test]
fn command_line_values() {
    let variants = Technology::value_variants();
    assert_eq!(70, variants.len());
    let mut names = HashSet::new();
    for t in &variants {
        let name = t.to_possible_value().expect("listed technologies have a name");
        assert!(names.insert(name));
    }
    assert_eq!(Some("httpd".to_string()), Technology::Httpd.to_possible_value());
    assert_eq!(None, Technology::Ubuntu.to_possible_value());
    assert_eq!(None, Technology::FreeBSD.to_possible_value());
    assert!(!variants.contains(&Technology::Debian));
}

#[test]
fn unnamed_technologies_are_operating_systems() {
    let all = [
        Technology::Ubuntu,
        Technology::Debian,
        Technology::CentOS,
        Technology::Fedora,
        Technology::Unix,
        Technology::OracleLinux,
        Technology::FreeBSD,
        Technology::OpenBSD,
        Technology::NetBSD,
        Technology::AlmaLinux,
    ];
    for t in all {
        assert_eq!(None, t.to_possible_value());
        assert_eq!("o", t.get_cpe_part_vendor_product().0);
    }
    assert_eq!("a", Technology::Nginx.get_cpe_part_vendor_product().0);
}

#[test]
fn display_names_distinct_and_alphanumeric() {
    let mut all = Technology::value_variants();
    all.extend([
        Technology::Ubuntu,
        Technology::Debian,
        Technology::CentOS,
        Technology::Fedora,
        Technology::Unix,
        Technology::OracleLinux,
        Technology::FreeBSD,
        Technology::OpenBSD,
        Technology::NetBSD,
        Technology::AlmaLinux,
    ]);
    assert_eq!(80, all.len());
    let mut names = HashSet::new();
    for t in &all {
        let name = t.to_string();
        assert!(!name.is_empty());
        assert!(name.chars().all(|c| c.is_ascii_alphanumeric()));
        assert!(names.insert(name));
    }
}

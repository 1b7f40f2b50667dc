use sanca_software::models::reqres::{UrlRequest, UrlRequestType, UrlResponse};

fn pairs(v: &[(&str, &str)]) -> Vec<(String, String)> {
    v.iter().map(|(a, b)| (a.to_string(), b.to_string())).collect()
}

#[test]
fn new_request_keeps_url() {
    let r = UrlRequest::new("https://example.com/x?y", true);
    assert_eq!("https://example.com/x?y", r.url);
    assert!(r.fetch_js);
}

#[test]
fn absolute_path_replaces_the_path() {
    let r = UrlRequest::from_path("https://example.com/blog/index.php?a=b#c", "/login_up.php", false);
    assert_eq!("https://example.com/login_up.php", r.url);
    assert!(!r.fetch_js);
    let r = UrlRequest::from_path("http://host:8080", "/..;/status.html", false);
    assert_eq!("http://host:8080/..;/status.html", r.url);
}

#[test]
fn relative_path_replaces_the_last_segment() {
    let r = UrlRequest::from_path("https://example.com/phpmyadmin/", "ChangeLog", false);
    assert_eq!("https://example.com/phpmyadmin/ChangeLog", r.url);
    let r = UrlRequest::from_path("https://example.com/blog/index.php?p=1", "wp-login.php", false);
    assert_eq!("https://example.com/blog/wp-login.php", r.url);
    let r = UrlRequest::from_path("https://example.com", "src/login.php", true);
    assert_eq!("https://example.com/src/login.php", r.url);
    assert!(r.fetch_js);
}

#[test]
fn get_headers_selects_requested_names_in_order() {
    let resp = UrlResponse::new(
        "https://example.com/",
        pairs(&[("Accept", "text/html"), ("X-Powered-By", "PHP/8.1"), ("server", "nginx")]),
        "",
        UrlRequestType::Default,
        200,
    );
    let names = vec!["Server".to_string(), "X-powered-by".to_string()];
    let found = resp.get_headers(&names);
    assert_eq!(pairs(&[("X-Powered-By", "PHP/8.1"), ("server", "nginx")]), found);
    assert!(resp.get_headers(&Vec::new()).is_empty());
}

#[test]
fn response_new_keeps_fields() {
    let resp = UrlResponse::new("u", pairs(&[("a", "b")]), "body", UrlRequestType::JavaScript, 404);
    assert_eq!("u", resp.url);
    assert_eq!(pairs(&[("a", "b")]), resp.headers);
    assert_eq!("body", resp.body);
    assert_eq!(UrlRequestType::JavaScript, resp.request_type);
    assert_eq!(404, resp.status_code);
}

#[test]
fn selected_headers_of_distinct_names_stay_distinct() {
    let resp = UrlResponse::new(
        "https://example.com/",
        pairs(&[("Server", "Apache"), ("Accept", "*/*"), ("X-Powered-By", "PHP")]),
        "",
        UrlRequestType::Default,
        200,
    );
    let names = vec!["server".to_string(), "SERVER".to_string(), "x-powered-by".to_string()];
    let found = resp.get_headers(&names);
    assert_eq!(pairs(&[("Server", "Apache"), ("X-Powered-By", "PHP")]), found);
}

use sanca_software::checkers::{expand_template, extract_finding_from_captures, shorten_evidence, Pattern};
use sanca_software::models::technology::Technology;

#[test]
fn short_evidence_is_kept_whole() {
    assert_eq!("abcdef", shorten_evidence("abcdef", 3, 3));
    assert_eq!("", shorten_evidence("", 0, 0));
}

#[test]
fn long_evidence_keeps_both_ends() {
    assert_eq!("ab[...]fg", shorten_evidence("abcdefg", 2, 2));
    assert_eq!("[...]g", shorten_evidence("abcdefg", 0, 1));
}

#[test]
fn template_variables_are_replaced_once() {
    let vars = vec![
        ("$a$".to_string(), "$b$".to_string()),
        ("$b$".to_string(), "B".to_string()),
    ];
    assert_eq!("x $b$ y B", expand_template("x $a$ y $b$", &vars));
    assert_eq!("no variable", expand_template("no variable", &vars));
    assert_eq!("$", expand_template("$", &vars));
}

#[test]
fn finding_from_captures() {
    let f = extract_finding_from_captures(
        "nginx/1.22.0",
        Some("1.22.0"),
        Some("https://a/"),
        45,
        45,
        Technology::Nginx,
        "$techno_name$$techno_version$ seen as \"$evidence$\" at $url_of_finding$",
    );
    assert_eq!(Technology::Nginx, f.technology);
    assert_eq!(Some("1.22.0".to_string()), f.version);
    assert_eq!("nginx/1.22.0", f.evidence);
    assert_eq!("Nginx 1.22.0 seen as \"nginx/1.22.0\" at https://a/", f.evidence_text);

    let f = extract_finding_from_captures("x", None, None, 1, 1, Technology::Jira, "$techno_name$$techno_version$@$url_of_finding$");
    assert_eq!("Jira@", f.evidence_text);
    assert_eq!(None, f.url_of_finding);
}

#[test]
fn patterns_compile_or_not() {
    assert!(Pattern::compile(r"a(?P<x>b)?").is_some());
    assert!(Pattern::compile(r"foo(bar").is_none());
}

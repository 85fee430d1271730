use zilla::request::ResourceType;
use zilla::rules::{parse_rule, RuleSet};

fn texts(rules: &[&str]) -> Vec<String> {
    rules.iter().map(|r| r.to_string()).collect()
}

#[test]
fn plain_rule_compiles() {
    let rule = parse_rule("/ad.png").expect("valid rule");
    assert!(!rule.exception);
    assert!(!rule.domain_anchor);
    assert_eq!(rule.pattern, "/ad.png".chars().collect::<Vec<char>>());
    assert_eq!(rule.scope, None);
}

#[test]
fn full_rule_form_compiles() {
    let rule = parse_rule("@@||ads.example.com^$image").expect("valid rule");
    assert!(rule.exception);
    assert!(rule.domain_anchor);
    assert_eq!(rule.pattern, "ads.example.com^".chars().collect::<Vec<char>>());
    assert_eq!(rule.scope, Some(ResourceType::Image));
}

#[test]
fn every_scope_name_is_recognised() {
    assert_eq!(parse_rule("x$script").unwrap().scope, Some(ResourceType::Script));
    assert_eq!(parse_rule("x$style").unwrap().scope, Some(ResourceType::Style));
    assert_eq!(parse_rule("x$image").unwrap().scope, Some(ResourceType::Image));
    assert_eq!(parse_rule("x$other").unwrap().scope, Some(ResourceType::Other));
}

#[test]
fn only_the_last_dollar_starts_the_scope() {
    let rule = parse_rule("/a$b$script").expect("valid rule");
    assert_eq!(rule.scope, Some(ResourceType::Script));
    assert_eq!(rule.pattern, "/a$b".chars().collect::<Vec<char>>());
}

#[test]
fn unknown_scope_name_is_refused() {
    assert!(parse_rule("x$bogus").is_none());
    assert!(parse_rule("x$").is_none());
}

#[test]
fn empty_pattern_is_refused() {
    assert!(parse_rule("").is_none());
    assert!(parse_rule("@@").is_none());
    assert!(parse_rule("||").is_none());
    assert!(parse_rule("@@||").is_none());
    assert!(parse_rule("||$script").is_none());
}

#[test]
fn build_compiles_all_rules() {
    let rs = RuleSet::build(&texts(&["||doubleclick.net^", "/ad.png", "@@/ok$style"]))
        .expect("all lines valid");
    assert_eq!(rs.len(), 3);
}

#[test]
fn build_reports_first_bad_line() {
    let err = RuleSet::build(&texts(&["/ok", "", "also-bad$nope"])).unwrap_err();
    assert_eq!(err.index, 1);
}

#[test]
fn build_rejects_whole_set_on_one_bad_line() {
    let err = RuleSet::build(&texts(&["/a", "/b", "$what"])).unwrap_err();
    assert_eq!(err.index, 2);
}

#[test]
fn build_of_empty_list_succeeds() {
    let rs = RuleSet::build(&texts(&[])).expect("empty list is fine");
    assert_eq!(rs.len(), 0);
}

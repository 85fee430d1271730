use zilla::engine::{default_rules, AdblockEngine};

fn engine_with(rules: &[&str]) -> AdblockEngine {
    let texts: Vec<String> = rules.iter().map(|r| r.to_string()).collect();
    AdblockEngine::build(&texts).expect("rules must compile")
}

fn default_engine() -> AdblockEngine {
    AdblockEngine::build(&default_rules()).expect("built-in rules must compile")
}

const SOURCE: &str = "https://adblock-tester.com/";

#[test]
fn domain_rule_blocks_path_occurrence() {
    let engine = engine_with(&["||doubleclick.net^"]);
    assert!(engine.check_should_block("https://example.com/doubleclick.net/x", SOURCE, "image"));
}

#[test]
fn domain_rule_blocks_exact_host() {
    let engine = engine_with(&["||doubleclick.net^"]);
    assert!(engine.check_should_block("https://doubleclick.net/ads", SOURCE, "image"));
}

#[test]
fn domain_rule_blocks_subdomain() {
    let engine = engine_with(&["||doubleclick.net^"]);
    assert!(engine.check_should_block("https://stats.doubleclick.net/pixel", SOURCE, "script"));
}

#[test]
fn domain_rule_separator_matches_end_of_url() {
    let engine = engine_with(&["||doubleclick.net^"]);
    assert!(engine.check_should_block("https://doubleclick.net", SOURCE, "image"));
}

#[test]
fn domain_rule_requires_boundary() {
    let engine = engine_with(&["||doubleclick.net^"]);
    assert!(!engine.check_should_block("https://notdoubleclick.net/", SOURCE, "image"));
}

#[test]
fn domain_rule_separator_rejects_longer_host() {
    let engine = engine_with(&["||doubleclick.net^"]);
    assert!(!engine.check_should_block("https://doubleclick.nett/", SOURCE, "image"));
}

#[test]
fn unrelated_rule_does_not_block() {
    let engine = default_engine();
    assert!(!engine.check_should_block("https://cdn.example.com/app.js", SOURCE, "script"));
}

#[test]
fn unscoped_path_rule_blocks_every_type() {
    let engine = engine_with(&["/ad.png"]);
    assert!(engine.check_should_block("https://example.com/ad.png", SOURCE, "image"));
    assert!(engine.check_should_block("https://example.com/ad.png", SOURCE, "script"));
    assert!(engine.check_should_block("https://example.com/ad.png", SOURCE, "css"));
}

#[test]
fn scoped_rule_blocks_only_its_type() {
    let engine = engine_with(&["/ad.png$script"]);
    assert!(engine.check_should_block("https://example.com/ad.png", SOURCE, "script"));
    assert!(!engine.check_should_block("https://example.com/ad.png", SOURCE, "image"));
    assert!(!engine.check_should_block("https://example.com/ad.png", SOURCE, "css"));
}

#[test]
fn exception_rule_overrides_block_rule() {
    let engine = engine_with(&["/ad.png", "@@/ad.png"]);
    assert!(!engine.check_should_block("https://example.com/ad.png", SOURCE, "image"));
}

#[test]
fn exception_listed_first_still_overrides() {
    let engine = engine_with(&["@@/ad.png", "/ad.png"]);
    assert!(!engine.check_should_block("https://example.com/ad.png", SOURCE, "image"));
}

#[test]
fn scoped_exception_does_not_lift_block_for_other_type() {
    let engine = engine_with(&["/ad.png", "@@/ad.png$script"]);
    assert!(engine.check_should_block("https://example.com/ad.png", SOURCE, "image"));
    assert!(!engine.check_should_block("https://example.com/ad.png", SOURCE, "script"));
}

#[test]
fn wildcard_matches_any_run() {
    let engine = engine_with(&["/ads/*.gif"]);
    assert!(engine.check_should_block("https://example.com/ads/banner.gif", SOURCE, "image"));
    assert!(engine.check_should_block("https://example.com/ads/a/b/c.gif", SOURCE, "image"));
    assert!(!engine.check_should_block("https://example.com/ads/banner.png", SOURCE, "image"));
}

#[test]
fn malformed_url_fails_open() {
    let engine = default_engine();
    assert!(!engine.check_should_block("not a valid url", SOURCE, "image"));
    assert!(!engine.check_should_block("", SOURCE, "image"));
    assert!(!engine.check_should_block("doubleclick.net", SOURCE, "image"));
}

#[test]
fn malformed_source_url_fails_open() {
    let engine = default_engine();
    assert!(!engine.check_should_block("https://doubleclick.net/ads", "no scheme here", "image"));
}

#[test]
fn decision_is_deterministic() {
    let engine = default_engine();
    let url = "https://example.com/doubleclick.net/x";
    let first = engine.check_should_block(url, SOURCE, "image");
    let second = engine.check_should_block(url, SOURCE, "image");
    assert_eq!(first, second);
    assert!(first);
}

#[test]
fn empty_rule_set_blocks_nothing() {
    let engine = engine_with(&[]);
    assert!(!engine.check_should_block("https://doubleclick.net/ads", SOURCE, "image"));
}

use zilla::request::{classify, classify_resource_type, ClassificationError, ResourceType};

const SOURCE: &str = "https://adblock-tester.com/";

#[test]
fn css_suffix_is_style() {
    assert_eq!(classify_resource_type("https://a.com/site.css"), ResourceType::Style);
}

#[test]
fn js_suffix_is_script() {
    assert_eq!(classify_resource_type("https://cdn.example.com/app.js"), ResourceType::Script);
}

#[test]
fn other_suffix_is_image() {
    assert_eq!(classify_resource_type("https://a.com/ad.png"), ResourceType::Image);
}

#[test]
fn classification_is_total_on_arbitrary_strings() {
    // No recognisable suffix, not even a well-formed URL: still classified.
    assert_eq!(classify_resource_type("not a valid url"), ResourceType::Image);
    assert_eq!(classify_resource_type(""), ResourceType::Image);
    assert_eq!(classify_resource_type("https://a.com/"), ResourceType::Image);
    assert_eq!(classify_resource_type("css"), ResourceType::Image);
    assert_eq!(classify_resource_type(".css"), ResourceType::Style);
    assert_eq!(classify_resource_type("π.js"), ResourceType::Script);
}

#[test]
fn suffix_table_is_ordered() {
    // Ends with `.css`, so the first row wins even though `.js` occurs inside.
    assert_eq!(classify_resource_type("https://a.com/x.js.css"), ResourceType::Style);
    assert_eq!(classify_resource_type("https://a.com/x.css.js"), ResourceType::Script);
}

#[test]
fn classify_fills_every_field() {
    let req = classify("https://cdn.example.com/app.js", SOURCE).expect("well-formed");
    assert_eq!(req.target_url, "https://cdn.example.com/app.js");
    assert_eq!(req.source_url, SOURCE);
    assert_eq!(req.resource_type, ResourceType::Script);
}

#[test]
fn classify_rejects_malformed_target() {
    let err = classify("not a valid url", SOURCE).unwrap_err();
    assert_eq!(err, ClassificationError::MalformedTargetUrl);
}

#[test]
fn classify_rejects_malformed_source() {
    let err = classify("https://a.com/x", "no scheme").unwrap_err();
    assert_eq!(err, ClassificationError::MalformedSourceUrl);
}

#[test]
fn classify_rejects_empty_host() {
    assert!(classify("https:///path", SOURCE).is_err());
    assert!(classify("https://", SOURCE).is_err());
}

#[test]
fn classify_rejects_bad_scheme() {
    assert!(classify("1https://a.com/", SOURCE).is_err());
    assert!(classify("://a.com/", SOURCE).is_err());
    assert!(classify("ht tp://a.com/", SOURCE).is_err());
}

#[test]
fn classify_accepts_scheme_variants() {
    assert!(classify("http://a.com", SOURCE).is_ok());
    assert!(classify("x-proto+v1.0://host", SOURCE).is_ok());
}

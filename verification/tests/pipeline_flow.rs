use zilla::engine::{default_rules, AdblockEngine};
use zilla::pipeline::{
    FetchError, FetchOutcome, InterceptionPipeline, PipelineStep, RelayedResponse,
};

const SOURCE: &str = "https://adblock-tester.com/";

fn default_pipeline() -> InterceptionPipeline {
    let engine = AdblockEngine::build(&default_rules()).expect("built-in rules must compile");
    InterceptionPipeline::new(engine, SOURCE.to_string())
}

fn expect_respond(step: PipelineStep) -> RelayedResponse {
    match step {
        PipelineStep::Respond(resp) => resp,
        PipelineStep::Fetch(url) => panic!("expected a final response, got a fetch of {}", url),
    }
}

#[test]
fn blocked_request_gets_empty_200() {
    let pipeline = default_pipeline();
    let resp = expect_respond(pipeline.handle("https://example.com/doubleclick.net/x"));
    assert_eq!(resp.status, 200);
    assert!(resp.headers.is_empty());
    assert!(resp.body.is_empty());
}

#[test]
fn blocked_path_rule_request_gets_empty_200() {
    let pipeline = default_pipeline();
    let resp = expect_respond(pipeline.handle("https://example.com/ad.png"));
    assert_eq!(resp.status, 200);
    assert!(resp.body.is_empty());
}

#[test]
fn malformed_url_gets_empty_500_without_fetch() {
    let pipeline = default_pipeline();
    let resp = expect_respond(pipeline.handle("not a valid url"));
    assert_eq!(resp.status, 500);
    assert!(resp.headers.is_empty());
    assert!(resp.body.is_empty());
}

#[test]
fn allowed_request_is_handed_to_the_fetcher() {
    let pipeline = default_pipeline();
    match pipeline.handle("https://cdn.example.com/app.js") {
        PipelineStep::Fetch(url) => assert_eq!(url, "https://cdn.example.com/app.js"),
        PipelineStep::Respond(resp) => panic!("expected a fetch, got status {}", resp.status),
    }
}

#[test]
fn successful_fetch_is_relayed_verbatim() {
    let outcome = FetchOutcome {
        status: 206,
        headers: vec![
            ("content-type".to_string(), b"text/javascript".to_vec()),
            ("set-cookie".to_string(), b"a=1".to_vec()),
            ("set-cookie".to_string(), b"b=2".to_vec()),
        ],
        body: b"console.log(1);".to_vec(),
    };
    let resp = InterceptionPipeline::relay(Ok(outcome));
    assert_eq!(resp.status, 206);
    assert_eq!(
        resp.headers,
        vec![
            ("content-type".to_string(), b"text/javascript".to_vec()),
            ("set-cookie".to_string(), b"a=1".to_vec()),
            ("set-cookie".to_string(), b"b=2".to_vec()),
        ]
    );
    assert_eq!(resp.body, b"console.log(1);".to_vec());
}

#[test]
fn failed_fetch_degrades_to_empty_500() {
    let resp = InterceptionPipeline::relay(Err(FetchError {
        message: "connection refused".to_string(),
    }));
    assert_eq!(resp.status, 500);
    assert!(resp.headers.is_empty());
    assert!(resp.body.is_empty());
}

#[test]
fn one_response_per_request_whatever_the_input() {
    let pipeline = default_pipeline();
    for raw in ["https://doubleclick.net/x", "https://ok.example.com/a.png", "", "no url at all"] {
        match pipeline.handle(raw) {
            PipelineStep::Respond(resp) => {
                assert!(resp.status == 200 || resp.status == 500);
            }
            PipelineStep::Fetch(url) => {
                assert_eq!(url, raw);
            }
        }
    }
}

//! A request-interception library for a browser shell: outbound requests are
//! classified from their URL, matched against a compiled rule set, and either
//! blocked (answered with a synthetic empty response) or handed to an outbound
//! fetcher whose response is relayed back unchanged.

pub mod chars;
pub mod engine;
pub mod matching;
pub mod pipeline;
pub mod request;
pub mod rules;

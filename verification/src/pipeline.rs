//! The interception pipeline.
//!
//! Every outbound request is handled in phases: classify the raw URL,
//! consult the filter engine, and either answer at once with a synthetic
//! response or hand the target URL to an outbound fetcher and relay its
//! response verbatim. The fetch is the only phase that touches the network,
//! so the pipeline exposes it as a seam: [`InterceptionPipeline::handle`]
//! runs the classification and the decision and either finishes the request
//! or asks the caller to fetch; [`InterceptionPipeline::relay`] turns
//! whatever the fetch produced into the response handed back to the
//! rendering surface. The caller always gets exactly one well-formed
//! response per request; no failure inside one request's handling can
//! escape the pipeline boundary.
//!
//! A blocked request is answered with status 200, no headers and an empty
//! body, so that host pages degrade silently instead of showing
//! broken-resource UI; a classification or fetch failure is answered with
//! status 500 and an empty body.
//!
//! Concurrency: the pipeline is stateless per call and its only shared
//! state, the compiled rule set, is read-only; `handle` takes `&self` and
//! no lock exists anywhere in it, so concurrent requests never serialize
//! against each other — in particular, nothing is ever held across a fetch.

use vstd::prelude::*;

use crate::engine::{decide_spec, AdblockEngine};
use crate::request::{classify, is_well_formed_url, spec_resource_type, SpecRequest};

verus! {

/// A response relayed to the rendering surface: a status code, the headers
/// in order with duplicate names preserved, and an opaque body.
pub struct RelayedResponse {
    pub status: u16,
    pub headers: Vec<(String, Vec<u8>)>,
    pub body: Vec<u8>,
}

/// What an outbound fetch produced on success: the upstream status,
/// headers in order with duplicates preserved, and the full body.
pub struct FetchOutcome {
    pub status: u16,
    pub headers: Vec<(String, Vec<u8>)>,
    pub body: Vec<u8>,
}

/// An outbound fetch failed: DNS, TLS, connection or timeout trouble. The
/// pipeline never looks inside; every transport error degrades to the same
/// error response.
pub struct FetchError {
    pub message: String,
}

/// What the pipeline asks of its caller after classification and decision:
/// either the response is already final, or the caller must fetch the given
/// target URL and relay the outcome.
pub enum PipelineStep {
    Respond(RelayedResponse),
    Fetch(String),
}

/// The synthetic response for a blocked request: an allow-looking but empty
/// 200, so the host page degrades silently.
pub open spec fn is_blocked_response(r: RelayedResponse) -> bool {
    r.status == 200 && r.headers@.len() == 0 && r.body@.len() == 0
}

/// The response for a per-request failure: an empty 500.
pub open spec fn is_error_response(r: RelayedResponse) -> bool {
    r.status == 500 && r.headers@.len() == 0 && r.body@.len() == 0
}

/// The pipeline: the shared filter engine plus the source URL that stands
/// in for per-navigation page context.
pub struct InterceptionPipeline {
    pub engine: AdblockEngine,
    pub default_source_url: String,
}

impl InterceptionPipeline {
    /// Classification of `raw` succeeds: the raw URL and the pipeline's
    /// default source URL are both well-formed.
    pub open spec fn classifiable(self, raw: Seq<char>) -> bool {
        is_well_formed_url(raw) && is_well_formed_url(self.default_source_url@)
    }

    /// The classified request the engine is consulted with for a raw URL.
    pub open spec fn request_of(self, raw: Seq<char>) -> SpecRequest {
        SpecRequest {
            target: raw,
            source: self.default_source_url@,
            rtype: spec_resource_type(raw),
        }
    }

    /// The engine blocks the request for `raw`.
    pub open spec fn blocks(self, raw: Seq<char>) -> bool {
        decide_spec(self.engine@, self.request_of(raw))
    }

    pub fn new(engine: AdblockEngine, default_source_url: String) -> (p: InterceptionPipeline)
        ensures
            p.engine@ == engine@,
            p.default_source_url@ == default_source_url@,
    {
        InterceptionPipeline { engine, default_source_url }
    }

    /// Handles one raw outbound request up to the fetch seam.
    ///
    /// - If classification fails (either URL malformed), the decision fails
    ///   open — nothing is blocked — but the response fails closed: an
    ///   empty 500, and no fetch is attempted.
    /// - If the engine blocks, the response is an empty 200.
    /// - Otherwise the caller is asked to fetch exactly the raw target URL.
    pub fn handle(&self, raw_url: &str) -> (step: PipelineStep)
        ensures
            match step {
                PipelineStep::Respond(resp) => (!self.classifiable(raw_url@) && is_error_response(
                    resp,
                )) || (self.classifiable(raw_url@) && self.blocks(raw_url@)
                    && is_blocked_response(resp)),
                PipelineStep::Fetch(u) => self.classifiable(raw_url@) && !self.blocks(raw_url@)
                    && u@ == raw_url@,
            },
    {
        match classify(raw_url, self.default_source_url.as_str()) {
            Err(_) => PipelineStep::Respond(
                RelayedResponse { status: 500, headers: Vec::new(), body: Vec::new() },
            ),
            Ok(req) => {
                if self.engine.decide(&req) {
                    PipelineStep::Respond(
                        RelayedResponse { status: 200, headers: Vec::new(), body: Vec::new() },
                    )
                } else {
                    PipelineStep::Fetch(raw_url.to_owned())
                }
            },
        }
    }

    /// Completes a request whose step was [`PipelineStep::Fetch`]: a
    /// successful fetch is relayed verbatim — status, every header in
    /// order with duplicates preserved, and the full body — and any fetch
    /// failure degrades to an empty 500 rather than escaping the pipeline.
    pub fn relay(outcome: Result<FetchOutcome, FetchError>) -> (resp: RelayedResponse)
        ensures
            match outcome {
                Ok(o) => resp.status == o.status && resp.headers == o.headers && resp.body
                    == o.body,
                Err(_) => is_error_response(resp),
            },
    {
        match outcome {
            Ok(o) => RelayedResponse { status: o.status, headers: o.headers, body: o.body },
            Err(_) => RelayedResponse { status: 500, headers: Vec::new(), body: Vec::new() },
        }
    }
}

} // verus!

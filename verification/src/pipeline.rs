//! The request-disposition pipeline, as a pure step machine.
//!
//! A handler run is: triage the signature; when it is suspicious, escalate
//! (the caller performs the network call) and enforce the judgment; forward
//! everything that was not blocked or deceived, and relay what the upstream
//! service answered. Each step is a pure function from the configuration,
//! the signature and the latest outside outcome to the next action, so the
//! caller's loop holds no decision of its own.

use vstd::prelude::*;
use vstd::slice::slice_to_vec;
use crate::json::spec_escalation_payload;
use crate::json::spec_parse_verdict;
use crate::sentinel::suspicious_sig;
use crate::signature::RequestSignature;
use crate::signature::target_seq;
use crate::signature::trace_seq;
use crate::verdict::Disposition;
use crate::verdict::disposition_of;

verus! {

/// The process-wide configuration, read-only after startup: where judgments
/// come from and where forwarded requests go.
pub struct ProxyConfig {
    pub brain_url: Vec<u8>,
    pub upstream_url: Vec<u8>,
}

/// The forwarding target: the upstream base, the original path, and the
/// original query behind a `?` when there is one.
pub open spec fn forward_url_seq(upstream: Seq<u8>, path: Seq<u8>, query: Seq<u8>) -> Seq<u8> {
    upstream + target_seq(path, query)
}

/// Builds the forwarding target URL for a signature.
pub fn forward_url(cfg: &ProxyConfig, sig: &RequestSignature) -> (r: Vec<u8>)
    ensures
        r@ == forward_url_seq(cfg.upstream_url@, sig.path@, sig.query@),
{
    let mut out: Vec<u8> = slice_to_vec(cfg.upstream_url.as_slice());
    let target = sig.target();
    out.extend_from_slice(target.as_slice());
    assert(out@ =~= forward_url_seq(cfg.upstream_url@, sig.path@, sig.query@));
    out
}

/// What triage asks the caller to do next.
pub enum TriageStep {
    /// Send `payload` to the judgment service at `judgment_url` and come
    /// back with the outcome.
    Escalate { judgment_url: Vec<u8>, payload: Vec<u8> },
    /// Issue the upstream call for `target_url` and relay its outcome.
    Forward { target_url: Vec<u8> },
}

/// Triage: a suspicious signature is escalated with the exact escalation
/// payload for its trace; a benign one goes straight to forwarding.
pub fn triage(cfg: &ProxyConfig, sig: &RequestSignature) -> (r: TriageStep)
    ensures
        match r {
            TriageStep::Escalate { judgment_url, payload } => suspicious_sig(*sig)
                && judgment_url@ == cfg.brain_url@ && payload@ == spec_escalation_payload(
                trace_seq(sig.method@, sig.path@, sig.query@),
            ),
            TriageStep::Forward { target_url } => !suspicious_sig(*sig) && target_url@
                == forward_url_seq(cfg.upstream_url@, sig.path@, sig.query@),
        },
{
    if crate::sentinel::is_suspicious(sig) {
        let trace = sig.trace();
        let payload = crate::json::build_escalation_payload(trace.as_slice());
        TriageStep::Escalate {
            judgment_url: slice_to_vec(cfg.brain_url.as_slice()),
            payload,
        }
    } else {
        TriageStep::Forward { target_url: forward_url(cfg, sig) }
    }
}

/// What came back from the escalation call.
pub enum EscalationResult {
    /// The judgment service answered; `body` is its raw response body.
    Response { body: Vec<u8> },
    /// The call could not complete (connect, timeout, resolution).
    TransportFailure,
}

/// The disposition earned by a judgment body: the parsed verdict's
/// disposition, and Forward — fail open — where no verdict can be read.
pub open spec fn body_disposition(body: Seq<u8>) -> Disposition {
    match spec_parse_verdict(body) {
        Option::Some(v) => disposition_of(v),
        Option::None => Disposition::Forward,
    }
}

/// The disposition earned by an escalation outcome: a transport failure
/// fails open to Forward.
pub open spec fn escalation_disposition(outcome: EscalationResult) -> Disposition {
    match outcome {
        EscalationResult::Response { body } => body_disposition(body@),
        EscalationResult::TransportFailure => Disposition::Forward,
    }
}

/// An answer the proxy sends back itself: a status, an optional `Location`
/// header value, and a body.
pub struct HttpResponse {
    pub status: u16,
    pub location: Option<Vec<u8>>,
    pub body: Vec<u8>,
}

/// The fixed text identifying the blocking authority.
pub open spec fn block_body() -> Seq<u8> {
    seq![
        74u8, 105u8, 114u8, 97u8, 99u8, 104u8, 105u8, 32u8, 83u8, 104u8, 105u8, 101u8, 108u8,
        100u8, 58u8, 32u8, 82u8, 101u8, 113u8, 117u8, 101u8, 115u8, 116u8, 32u8, 66u8, 108u8,
        111u8, 99u8, 107u8, 101u8, 100u8, 32u8, 98u8, 121u8, 32u8, 67u8, 111u8, 109u8, 109u8,
        97u8, 110u8, 100u8, 46u8,
    ]
}

/// The generic text sent along with the deceptive redirect.
pub open spec fn deceive_body() -> Seq<u8> {
    seq![
        82u8, 101u8, 100u8, 105u8, 114u8, 101u8, 99u8, 116u8, 105u8, 110u8, 103u8, 32u8, 102u8,
        111u8, 114u8, 32u8, 100u8, 101u8, 98u8, 117u8, 103u8, 46u8, 46u8, 46u8,
    ]
}

/// The decoy route the deceptive redirect points at.
pub open spec fn trap_route() -> Seq<u8> {
    seq![47u8, 116u8, 114u8, 97u8, 112u8]
}

/// The fixed decoy payload, shaped like a database failure.
pub open spec fn decoy_body() -> Seq<u8> {
    seq![
        123u8, 34u8, 100u8, 101u8, 98u8, 117u8, 103u8, 95u8, 116u8, 114u8, 97u8, 99u8, 101u8,
        34u8, 58u8, 34u8, 83u8, 69u8, 76u8, 69u8, 67u8, 84u8, 32u8, 42u8, 32u8, 70u8, 82u8, 79u8,
        77u8, 32u8, 117u8, 115u8, 101u8, 114u8, 115u8, 32u8, 87u8, 72u8, 69u8, 82u8, 69u8, 32u8,
        97u8, 100u8, 109u8, 105u8, 110u8, 32u8, 61u8, 32u8, 49u8, 32u8, 102u8, 97u8, 105u8,
        108u8, 101u8, 100u8, 46u8, 34u8, 44u8, 34u8, 101u8, 114u8, 114u8, 111u8, 114u8, 34u8,
        58u8, 34u8, 70u8, 97u8, 116u8, 97u8, 108u8, 32u8, 68u8, 66u8, 32u8, 69u8, 114u8, 114u8,
        111u8, 114u8, 34u8, 44u8, 34u8, 115u8, 117u8, 103u8, 103u8, 101u8, 115u8, 116u8, 105u8,
        111u8, 110u8, 34u8, 58u8, 34u8, 80u8, 108u8, 101u8, 97u8, 115u8, 101u8, 32u8, 99u8,
        111u8, 110u8, 116u8, 97u8, 99u8, 116u8, 32u8, 115u8, 121u8, 115u8, 97u8, 100u8, 109u8,
        105u8, 110u8, 46u8, 34u8, 125u8,
    ]
}

/// The text put before the failure description in a gateway error.
pub open spec fn upstream_error_prefix() -> Seq<u8> {
    seq![
        85u8, 112u8, 115u8, 116u8, 114u8, 101u8, 97u8, 109u8, 32u8, 69u8, 114u8, 114u8, 111u8,
        114u8, 58u8, 32u8,
    ]
}

/// The 403 block response with the fixed blocking-authority text.
pub fn block_response() -> (r: HttpResponse)
    ensures
        r.status == 403,
        r.location is None,
        r.body@ == block_body(),
{
    let body: Vec<u8> = vec![
        74u8, 105u8, 114u8, 97u8, 99u8, 104u8, 105u8, 32u8, 83u8, 104u8, 105u8, 101u8, 108u8,
        100u8, 58u8, 32u8, 82u8, 101u8, 113u8, 117u8, 101u8, 115u8, 116u8, 32u8, 66u8, 108u8,
        111u8, 99u8, 107u8, 101u8, 100u8, 32u8, 98u8, 121u8, 32u8, 67u8, 111u8, 109u8, 109u8,
        97u8, 110u8, 100u8, 46u8,
    ];
    assert(body@ =~= block_body());
    HttpResponse { status: 403, location: Option::None, body }
}

/// The 307 deceptive redirect into the decoy route. 307 keeps the original
/// method on the redirected request, so the hop looks like a real internal
/// one.
pub fn deceive_response() -> (r: HttpResponse)
    ensures
        r.status == 307,
        match r.location {
            Option::Some(l) => l@ == trap_route(),
            Option::None => false,
        },
        r.body@ == deceive_body(),
{
    let location: Vec<u8> = vec![47u8, 116u8, 114u8, 97u8, 112u8];
    assert(location@ =~= trap_route());
    let body: Vec<u8> = vec![
        82u8, 101u8, 100u8, 105u8, 114u8, 101u8, 99u8, 116u8, 105u8, 110u8, 103u8, 32u8, 102u8,
        111u8, 114u8, 32u8, 100u8, 101u8, 98u8, 117u8, 103u8, 46u8, 46u8, 46u8,
    ];
    assert(body@ =~= deceive_body());
    HttpResponse { status: 307, location: Option::Some(location), body }
}

/// The decoy answer: always 200 with the fixed fabricated failure payload,
/// whatever the trapped request held.
pub fn decoy_response() -> (r: HttpResponse)
    ensures
        r.status == 200,
        r.location is None,
        r.body@ == decoy_body(),
{
    let body: Vec<u8> = vec![
        123u8, 34u8, 100u8, 101u8, 98u8, 117u8, 103u8, 95u8, 116u8, 114u8, 97u8, 99u8, 101u8,
        34u8, 58u8, 34u8, 83u8, 69u8, 76u8, 69u8, 67u8, 84u8, 32u8, 42u8, 32u8, 70u8, 82u8, 79u8,
        77u8, 32u8, 117u8, 115u8, 101u8, 114u8, 115u8, 32u8, 87u8, 72u8, 69u8, 82u8, 69u8, 32u8,
        97u8, 100u8, 109u8, 105u8, 110u8, 32u8, 61u8, 32u8, 49u8, 32u8, 102u8, 97u8, 105u8,
        108u8, 101u8, 100u8, 46u8, 34u8, 44u8, 34u8, 101u8, 114u8, 114u8, 111u8, 114u8, 34u8,
        58u8, 34u8, 70u8, 97u8, 116u8, 97u8, 108u8, 32u8, 68u8, 66u8, 32u8, 69u8, 114u8, 114u8,
        111u8, 114u8, 34u8, 44u8, 34u8, 115u8, 117u8, 103u8, 103u8, 101u8, 115u8, 116u8, 105u8,
        111u8, 110u8, 34u8, 58u8, 34u8, 80u8, 108u8, 101u8, 97u8, 115u8, 101u8, 32u8, 99u8,
        111u8, 110u8, 116u8, 97u8, 99u8, 116u8, 32u8, 115u8, 121u8, 115u8, 97u8, 100u8, 109u8,
        105u8, 110u8, 46u8, 34u8, 125u8,
    ];
    assert(body@ =~= decoy_body());
    HttpResponse { status: 200, location: Option::None, body }
}

/// What enforcement asks the caller to do after an escalation.
pub enum EnforceStep {
    /// Answer the inbound request with `response` and stop.
    Respond { response: HttpResponse },
    /// Issue the upstream call for `target_url` and relay its outcome.
    Forward { target_url: Vec<u8> },
}

/// Enforcement after an escalation: BLOCK answers 403, DECEIVE answers a
/// 307 into the decoy route, and everything else — ALLOW, an unrecognized
/// action, an unreadable body, a transport failure — forwards.
pub fn after_escalation(cfg: &ProxyConfig, sig: &RequestSignature, outcome: &EscalationResult) -> (r:
    EnforceStep)
    ensures
        escalation_disposition(*outcome) == Disposition::Forward ==> match r {
            EnforceStep::Forward { target_url } => target_url@ == forward_url_seq(
                cfg.upstream_url@,
                sig.path@,
                sig.query@,
            ),
            EnforceStep::Respond { .. } => false,
        },
        escalation_disposition(*outcome) == Disposition::Block ==> match r {
            EnforceStep::Respond { response } => response.status == 403 && response.body@
                == block_body() && response.location is None,
            EnforceStep::Forward { .. } => false,
        },
        escalation_disposition(*outcome) == Disposition::Deceive ==> match r {
            EnforceStep::Respond { response } => response.status == 307 && response.body@
                == deceive_body() && match response.location {
                Option::Some(l) => l@ == trap_route(),
                Option::None => false,
            },
            EnforceStep::Forward { .. } => false,
        },
{
    match outcome {
        EscalationResult::TransportFailure => EnforceStep::Forward {
            target_url: forward_url(cfg, sig),
        },
        EscalationResult::Response { body } => {
            match crate::json::parse_verdict(body.as_slice()) {
                Option::None => EnforceStep::Forward { target_url: forward_url(cfg, sig) },
                Option::Some(v) => {
                    match crate::verdict::decide(&v) {
                        Disposition::Block => EnforceStep::Respond {
                            response: block_response(),
                        },
                        Disposition::Deceive => EnforceStep::Respond {
                            response: deceive_response(),
                        },
                        Disposition::Forward => EnforceStep::Forward {
                            target_url: forward_url(cfg, sig),
                        },
                    }
                },
            }
        },
    }
}

/// What came back from the upstream call.
pub enum UpstreamResult {
    /// The upstream answered with a status code and raw body bytes.
    Response { status: u16, body: Vec<u8> },
    /// The call could not complete; `detail` describes the failure.
    TransportFailure { detail: Vec<u8> },
}

/// The status relayed for an upstream status: verbatim when it is a valid
/// HTTP code, 500 otherwise.
pub open spec fn relayed_status(status: u16) -> u16 {
    if 100 <= status <= 999 {
        status
    } else {
        500
    }
}

/// Relays an upstream outcome: the upstream's own status and raw body, or
/// a 502 gateway error whose body embeds the failure description.
pub fn relay_response(outcome: &UpstreamResult) -> (r: HttpResponse)
    ensures
        match *outcome {
            UpstreamResult::Response { status, body } => r.status == relayed_status(status)
                && r.body@ == body@ && r.location is None,
            UpstreamResult::TransportFailure { detail } => r.status == 502 && r.body@
                == upstream_error_prefix() + detail@ && r.location is None,
        },
{
    match outcome {
        UpstreamResult::Response { status, body } => {
            let code: u16 = if 100 <= *status && *status <= 999 {
                *status
            } else {
                500
            };
            HttpResponse {
                status: code,
                location: Option::None,
                body: slice_to_vec(body.as_slice()),
            }
        },
        UpstreamResult::TransportFailure { detail } => {
            let mut body: Vec<u8> = vec![
                85u8, 112u8, 115u8, 116u8, 114u8, 101u8, 97u8, 109u8, 32u8, 69u8, 114u8, 114u8,
                111u8, 114u8, 58u8, 32u8,
            ];
            assert(body@ =~= upstream_error_prefix());
            body.extend_from_slice(detail.as_slice());
            HttpResponse { status: 502, location: Option::None, body }
        },
    }
}

/// Fail open: a failed escalation call never blocks; its disposition is
/// Forward, so the handler goes on to the Forwarder.
pub proof fn lemma_escalation_failure_forwards()
    ensures
        escalation_disposition(EscalationResult::TransportFailure) == Disposition::Forward,
{
}

/// Fail open: a judgment body that is no readable verdict never blocks; its
/// disposition is Forward.
pub proof fn lemma_unreadable_body_forwards(body: Seq<u8>)
    requires
        spec_parse_verdict(body) is None,
    ensures
        body_disposition(body) == Disposition::Forward,
{
}

} // verus!

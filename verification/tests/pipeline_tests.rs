use jirachi_proxy::pipeline::after_escalation;
use jirachi_proxy::pipeline::block_response;
use jirachi_proxy::pipeline::deceive_response;
use jirachi_proxy::pipeline::decoy_response;
use jirachi_proxy::pipeline::forward_url;
use jirachi_proxy::pipeline::relay_response;
use jirachi_proxy::pipeline::triage;
use jirachi_proxy::pipeline::EnforceStep;
use jirachi_proxy::pipeline::EscalationResult;
use jirachi_proxy::pipeline::ProxyConfig;
use jirachi_proxy::pipeline::TriageStep;
use jirachi_proxy::pipeline::UpstreamResult;
use jirachi_proxy::signature::RequestSignature;
use jirachi_proxy::verdict::decide;
use jirachi_proxy::verdict::Command;
use jirachi_proxy::verdict::Disposition;
use jirachi_proxy::verdict::Verdict;

fn cfg() -> ProxyConfig {
    ProxyConfig {
        brain_url: b"http://127.0.0.1:8000/analyze_threat".to_vec(),
        upstream_url: b"http://127.0.0.1:5000".to_vec(),
    }
}

fn sig(method: &[u8], path: &[u8], query: &[u8]) -> RequestSignature {
    RequestSignature { method: method.to_vec(), path: path.to_vec(), query: query.to_vec() }
}

fn verdict(action: &[u8]) -> Verdict {
    Verdict {
        artifact_type: b"probe".to_vec(),
        threat_level: b"high".to_vec(),
        command: Command { action: action.to_vec(), redirect_target: None },
    }
}

#[test]
fn benign_request_goes_straight_to_upstream() {
    match triage(&cfg(), &sig(b"GET", b"/products", b"id=1")) {
        TriageStep::Forward { target_url } => {
            assert_eq!(target_url, b"http://127.0.0.1:5000/products?id=1".to_vec());
        }
        TriageStep::Escalate { .. } => panic!("benign request must not escalate"),
    }
}

#[test]
fn forward_target_has_no_query_marker_when_query_is_empty() {
    match triage(&cfg(), &sig(b"GET", b"/products", b"")) {
        TriageStep::Forward { target_url } => {
            assert_eq!(target_url, b"http://127.0.0.1:5000/products".to_vec());
        }
        TriageStep::Escalate { .. } => panic!("benign request must not escalate"),
    }
}

#[test]
fn forward_target_ignores_the_method() {
    let get = forward_url(&cfg(), &sig(b"GET", b"/items", b"a=1"));
    let post = forward_url(&cfg(), &sig(b"POST", b"/items", b"a=1"));
    assert_eq!(get, post);
}

#[test]
fn suspicious_request_escalates_with_exact_payload() {
    match triage(&cfg(), &sig(b"GET", b"/admin/login", b"")) {
        TriageStep::Escalate { judgment_url, payload } => {
            assert_eq!(judgment_url, b"http://127.0.0.1:8000/analyze_threat".to_vec());
            assert_eq!(payload, br#"{"trace":"GET /admin/login","slm_score":0.9}"#.to_vec());
        }
        TriageStep::Forward { .. } => panic!("suspicious request must escalate"),
    }
}

#[test]
fn block_judgment_answers_403() {
    let outcome = EscalationResult::Response { body: br#"{"command":{"action":"BLOCK"}}"#.to_vec() };
    match after_escalation(&cfg(), &sig(b"GET", b"/admin/login", b""), &outcome) {
        EnforceStep::Respond { response } => {
            assert_eq!(response.status, 403);
            assert_eq!(response.body, b"Jirachi Shield: Request Blocked by Command.".to_vec());
            assert!(response.location.is_none());
        }
        EnforceStep::Forward { .. } => panic!("BLOCK must not forward"),
    }
}

#[test]
fn deceive_judgment_answers_307_into_the_trap() {
    let outcome =
        EscalationResult::Response { body: br#"{"command":{"action":"DECEIVE"}}"#.to_vec() };
    match after_escalation(&cfg(), &sig(b"GET", b"/", b"q=%27"), &outcome) {
        EnforceStep::Respond { response } => {
            assert_eq!(response.status, 307);
            assert_eq!(response.location, Some(b"/trap".to_vec()));
            assert_eq!(response.body, b"Redirecting for debug...".to_vec());
        }
        EnforceStep::Forward { .. } => panic!("DECEIVE must not forward"),
    }
}

#[test]
fn allow_judgment_forwards() {
    let outcome = EscalationResult::Response { body: br#"{"command":{"action":"ALLOW"}}"#.to_vec() };
    match after_escalation(&cfg(), &sig(b"GET", b"/admin", b""), &outcome) {
        EnforceStep::Forward { target_url } => {
            assert_eq!(target_url, b"http://127.0.0.1:5000/admin".to_vec());
        }
        EnforceStep::Respond { .. } => panic!("ALLOW must forward"),
    }
}

#[test]
fn unrecognized_action_forwards() {
    let outcome =
        EscalationResult::Response { body: br#"{"command":{"action":"QUARANTINE"}}"#.to_vec() };
    match after_escalation(&cfg(), &sig(b"GET", b"/admin", b""), &outcome) {
        EnforceStep::Forward { .. } => {}
        EnforceStep::Respond { .. } => panic!("an unrecognized action must forward"),
    }
}

#[test]
fn unreadable_judgment_body_fails_open() {
    let outcome = EscalationResult::Response { body: b"not json at all".to_vec() };
    match after_escalation(&cfg(), &sig(b"GET", b"/admin", b""), &outcome) {
        EnforceStep::Forward { target_url } => {
            assert_eq!(target_url, b"http://127.0.0.1:5000/admin".to_vec());
        }
        EnforceStep::Respond { .. } => panic!("an unreadable body must fail open"),
    }
}

#[test]
fn escalation_transport_failure_fails_open() {
    let the_cfg = cfg();
    let the_sig = sig(b"GET", b"/admin", b"");
    match after_escalation(&the_cfg, &the_sig, &EscalationResult::TransportFailure) {
        EnforceStep::Forward { target_url } => {
            assert_eq!(target_url, forward_url(&the_cfg, &the_sig));
            assert_eq!(target_url, b"http://127.0.0.1:5000/admin".to_vec());
        }
        EnforceStep::Respond { .. } => panic!("a failed escalation must fail open"),
    }
}

#[test]
fn upstream_response_is_relayed_verbatim() {
    let r = relay_response(&UpstreamResult::Response { status: 200, body: b"OK".to_vec() });
    assert_eq!(r.status, 200);
    assert_eq!(r.body, b"OK".to_vec());
    assert!(r.location.is_none());
    let r = relay_response(&UpstreamResult::Response { status: 404, body: b"gone".to_vec() });
    assert_eq!(r.status, 404);
}

#[test]
fn invalid_upstream_status_becomes_500() {
    let r = relay_response(&UpstreamResult::Response { status: 0, body: b"".to_vec() });
    assert_eq!(r.status, 500);
    let r = relay_response(&UpstreamResult::Response { status: 1000, body: b"".to_vec() });
    assert_eq!(r.status, 500);
}

#[test]
fn upstream_transport_failure_becomes_502() {
    let r = relay_response(
        &UpstreamResult::TransportFailure { detail: b"connection refused".to_vec() },
    );
    assert_eq!(r.status, 502);
    assert_eq!(r.body, b"Upstream Error: connection refused".to_vec());
}

#[test]
fn decoy_answer_is_the_fixed_fake_failure() {
    let r = decoy_response();
    assert_eq!(r.status, 200);
    assert!(r.location.is_none());
    assert_eq!(
        r.body,
        br#"{"debug_trace":"SELECT * FROM users WHERE admin = 1 failed.","error":"Fatal DB Error","suggestion":"Please contact sysadmin."}"#
            .to_vec()
    );
}

#[test]
fn fixed_responses_have_the_fixed_shape() {
    let b = block_response();
    assert_eq!(b.status, 403);
    assert!(b.location.is_none());
    let d = deceive_response();
    assert_eq!(d.status, 307);
    assert_eq!(d.location, Some(b"/trap".to_vec()));
}

#[test]
fn decide_follows_the_action_table() {
    assert_eq!(decide(&verdict(b"BLOCK")), Disposition::Block);
    assert_eq!(decide(&verdict(b"DECEIVE")), Disposition::Deceive);
    assert_eq!(decide(&verdict(b"ALLOW")), Disposition::Forward);
    assert_eq!(decide(&verdict(b"anything else")), Disposition::Forward);
    assert_eq!(decide(&verdict(b"")), Disposition::Forward);
}

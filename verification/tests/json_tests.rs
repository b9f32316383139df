use jirachi_proxy::json::build_escalation_payload;
use jirachi_proxy::json::parse_command;
use jirachi_proxy::json::parse_verdict;
use jirachi_proxy::json::serialize_command;
use jirachi_proxy::verdict::Command;

#[test]
fn parse_full_verdict() {
    let body = br#"{"artifact_type":"sqli","threat_level":"high","command":{"action":"BLOCK","redirect_target":null}}"#;
    let v = parse_verdict(body).unwrap();
    assert_eq!(v.artifact_type, b"sqli".to_vec());
    assert_eq!(v.threat_level, b"high".to_vec());
    assert_eq!(v.command.action, b"BLOCK".to_vec());
    assert!(v.command.redirect_target.is_none());
}

#[test]
fn parse_command_only_verdict() {
    let body = br#"{"command":{"action":"BLOCK"}}"#;
    let v = parse_verdict(body).unwrap();
    assert_eq!(v.artifact_type, b"".to_vec());
    assert_eq!(v.threat_level, b"".to_vec());
    assert_eq!(v.command.action, b"BLOCK".to_vec());
    assert!(v.command.redirect_target.is_none());
}

#[test]
fn parse_with_whitespace() {
    let body = b"  { \"threat_level\" : \"low\" ,\n \"command\" : { \"action\" : \"ALLOW\" , \"redirect_target\" : null } }  ";
    let v = parse_verdict(body).unwrap();
    assert_eq!(v.artifact_type, b"".to_vec());
    assert_eq!(v.threat_level, b"low".to_vec());
    assert_eq!(v.command.action, b"ALLOW".to_vec());
    assert!(v.command.redirect_target.is_none());
}

#[test]
fn parse_redirect_target_string() {
    let body = br#"{"command":{"action":"DECEIVE","redirect_target":"/trap"}}"#;
    let v = parse_verdict(body).unwrap();
    assert_eq!(v.command.action, b"DECEIVE".to_vec());
    assert_eq!(v.command.redirect_target, Some(b"/trap".to_vec()));
}

#[test]
fn parse_rejects_missing_command() {
    assert!(parse_verdict(br#"{"artifact_type":"x"}"#).is_none());
    assert!(parse_verdict(b"{}").is_none());
}

#[test]
fn parse_rejects_non_object() {
    assert!(parse_verdict(b"").is_none());
    assert!(parse_verdict(b"null").is_none());
    assert!(parse_verdict(b"oops").is_none());
}

#[test]
fn parse_rejects_trailing_garbage() {
    assert!(parse_verdict(br#"{"command":{"action":"BLOCK"}}x"#).is_none());
}

#[test]
fn parse_rejects_escaped_string() {
    assert!(parse_verdict(br#"{"command":{"action":"BLO\"CK"}}"#).is_none());
}

#[test]
fn serialize_command_exact_bytes() {
    let c = Command { action: b"BLOCK".to_vec(), redirect_target: None };
    assert_eq!(serialize_command(&c), br#"{"action":"BLOCK","redirect_target":null}"#.to_vec());
    let d = Command { action: b"DECEIVE".to_vec(), redirect_target: Some(b"/trap".to_vec()) };
    assert_eq!(
        serialize_command(&d),
        br#"{"action":"DECEIVE","redirect_target":"/trap"}"#.to_vec()
    );
}

#[test]
fn command_round_trip_with_null_target() {
    let c = Command { action: b"ALLOW".to_vec(), redirect_target: None };
    let wire = serialize_command(&c);
    let (back, used) = parse_command(wire.as_slice(), 0).unwrap();
    assert_eq!(used, wire.len());
    assert_eq!(back.action, b"ALLOW".to_vec());
    assert!(back.redirect_target.is_none());
}

#[test]
fn command_round_trip_with_target() {
    let c = Command { action: b"DECEIVE".to_vec(), redirect_target: Some(b"/trap".to_vec()) };
    let wire = serialize_command(&c);
    let (back, used) = parse_command(wire.as_slice(), 0).unwrap();
    assert_eq!(used, wire.len());
    assert_eq!(back.action, b"DECEIVE".to_vec());
    assert_eq!(back.redirect_target, Some(b"/trap".to_vec()));
}

#[test]
fn escalation_payload_exact_bytes() {
    let payload = build_escalation_payload(b"GET /admin");
    assert_eq!(payload, br#"{"trace":"GET /admin","slm_score":0.9}"#.to_vec());
}

#[test]
fn escalation_payload_escapes_quotes_and_backslashes() {
    let payload = build_escalation_payload(b"GET /a\"b\\c");
    assert_eq!(payload, br#"{"trace":"GET /a\"b\\c","slm_score":0.9}"#.to_vec());
}

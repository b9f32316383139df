use jirachi_proxy::sentinel::is_suspicious;
use jirachi_proxy::signature::RequestSignature;

fn sig(method: &[u8], path: &[u8], query: &[u8]) -> RequestSignature {
    RequestSignature { method: method.to_vec(), path: path.to_vec(), query: query.to_vec() }
}

#[test]
fn admin_in_path_is_suspicious() {
    assert!(is_suspicious(&sig(b"GET", b"/admin/login", b"")));
}

#[test]
fn union_in_query_is_suspicious() {
    assert!(is_suspicious(&sig(b"GET", b"/search", b"q=1+UNION+SELECT")));
}

#[test]
fn encoded_quote_in_query_is_suspicious() {
    assert!(is_suspicious(&sig(b"GET", b"/", b"q=%27")));
}

#[test]
fn siren_marker_is_suspicious() {
    assert!(is_suspicious(&sig(b"GET", b"/siren_test", b"")));
}

#[test]
fn benign_request_is_not_suspicious() {
    assert!(!is_suspicious(&sig(b"GET", b"/products", b"id=1")));
    assert!(!is_suspicious(&sig(b"POST", b"/login", b"user=alice")));
    assert!(!is_suspicious(&sig(b"GET", b"/", b"")));
}

#[test]
fn lower_case_union_is_not_flagged() {
    assert!(!is_suspicious(&sig(b"GET", b"/search", b"q=union")));
}

#[test]
fn marker_spanning_path_and_query_is_flagged() {
    assert!(is_suspicious(&sig(b"GET", b"/adm", b"in")));
}

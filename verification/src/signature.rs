//! The triage signature derived from an inbound request, and the suspicion
//! trace text sent to the judgment service.

use vstd::prelude::*;

verus! {

/// The compact triage view of an inbound request: its method, its path and
/// its query string, each as plain bytes. A missing query string is the
/// empty string.
pub struct RequestSignature {
    pub method: Vec<u8>,
    pub path: Vec<u8>,
    pub query: Vec<u8>,
}

/// The request target as it is re-addressed to a server: the path, then
/// `?` and the query string when the query string is non-empty.
pub open spec fn target_seq(path: Seq<u8>, query: Seq<u8>) -> Seq<u8> {
    if query.len() == 0 {
        path
    } else {
        path + seq![63u8] + query
    }
}

/// The suspicion trace line: method, a space, then the request target.
pub open spec fn trace_seq(method: Seq<u8>, path: Seq<u8>, query: Seq<u8>) -> Seq<u8> {
    method + seq![32u8] + target_seq(path, query)
}

impl RequestSignature {
    /// Builds the request target (`path` or `path?query`) of this signature.
    pub fn target(&self) -> (r: Vec<u8>)
        ensures
            r@ == target_seq(self.path@, self.query@),
    {
        let mut out: Vec<u8> = Vec::new();
        out.extend_from_slice(self.path.as_slice());
        if self.query.len() > 0 {
            out.push(63u8);
            out.extend_from_slice(self.query.as_slice());
            assert(out@ =~= target_seq(self.path@, self.query@));
        } else {
            assert(out@ =~= target_seq(self.path@, self.query@));
        }
        out
    }

    /// Builds the suspicion trace line (`method path?query`) of this signature.
    pub fn trace(&self) -> (r: Vec<u8>)
        ensures
            r@ == trace_seq(self.method@, self.path@, self.query@),
    {
        let mut out: Vec<u8> = Vec::new();
        out.extend_from_slice(self.method.as_slice());
        out.push(32u8);
        let target = self.target();
        out.extend_from_slice(target.as_slice());
        assert(out@ =~= trace_seq(self.method@, self.path@, self.query@));
        out
    }
}

} // verus!

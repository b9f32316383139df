//! The Sentinel: a cheap, local, false-positive-tolerant predicate that flags
//! a request as suspicious when the concatenation of its path and query
//! contains one of a fixed set of marker substrings.

use vstd::prelude::*;
use crate::contains_seq;
use crate::signature::RequestSignature;

verus! {

pub open spec fn marker_admin() -> Seq<u8> {
    seq![97u8, 100u8, 109u8, 105u8, 110u8]
}

pub open spec fn marker_union() -> Seq<u8> {
    seq![85u8, 78u8, 73u8, 79u8, 78u8]
}

pub open spec fn marker_quote() -> Seq<u8> {
    seq![37u8, 50u8, 55u8]
}

pub open spec fn marker_siren() -> Seq<u8> {
    seq![115u8, 105u8, 114u8, 101u8, 110u8, 95u8, 116u8, 101u8, 115u8, 116u8]
}

/// The fixed, data-driven marker set the Sentinel scans for.
pub open spec fn marker_seqs() -> Seq<Seq<u8>> {
    seq![marker_admin(), marker_union(), marker_quote(), marker_siren()]
}

/// A signature is suspicious iff path + query contains some marker.
pub open spec fn suspicious_seq(path: Seq<u8>, query: Seq<u8>) -> bool {
    exists|k: int|
        0 <= k < marker_seqs().len() && contains_seq(path + query, #[trigger] marker_seqs()[k])
}

pub open spec fn suspicious_sig(sig: RequestSignature) -> bool {
    suspicious_seq(sig.path@, sig.query@)
}

/// The marker substrings as executable byte strings, in the order of
/// `marker_seqs`.
pub fn markers() -> (r: Vec<Vec<u8>>)
    ensures
        r@.len() == marker_seqs().len(),
        forall|k: int| 0 <= k < r@.len() ==> r@[k]@ == #[trigger] marker_seqs()[k],
{
    let m_admin: Vec<u8> = vec![97u8, 100u8, 109u8, 105u8, 110u8];
    let m_union: Vec<u8> = vec![85u8, 78u8, 73u8, 79u8, 78u8];
    let m_quote: Vec<u8> = vec![37u8, 50u8, 55u8];
    let m_siren: Vec<u8> = vec![115u8, 105u8, 114u8, 101u8, 110u8, 95u8, 116u8, 101u8, 115u8, 116u8];
    assert(m_admin@ =~= marker_admin());
    assert(m_union@ =~= marker_union());
    assert(m_quote@ =~= marker_quote());
    assert(m_siren@ =~= marker_siren());
    let mut r: Vec<Vec<u8>> = Vec::new();
    r.push(m_admin);
    r.push(m_union);
    r.push(m_quote);
    r.push(m_siren);
    r
}

/// A signature whose path or whose query contains one of the configured
/// markers is flagged suspicious.
pub proof fn lemma_marker_flags_suspicious(path: Seq<u8>, query: Seq<u8>, k: int)
    requires
        0 <= k < marker_seqs().len(),
        contains_seq(path, marker_seqs()[k]) || contains_seq(query, marker_seqs()[k]),
    ensures
        suspicious_seq(path, query),
{
    if contains_seq(path, marker_seqs()[k]) {
        crate::bytes::lemma_contains_extends_right(path, query, marker_seqs()[k]);
    } else {
        crate::bytes::lemma_contains_extends_left(path, query, marker_seqs()[k]);
    }
}

/// A signature whose path + query contains none of the configured markers is
/// not flagged.
pub proof fn lemma_no_marker_not_suspicious(path: Seq<u8>, query: Seq<u8>)
    requires
        forall|k: int|
            0 <= k < marker_seqs().len() ==> !contains_seq(path + query, #[trigger] marker_seqs()[k]),
    ensures
        !suspicious_seq(path, query),
{
}

/// The Sentinel predicate: scans path + query for each configured marker.
pub fn is_suspicious(sig: &RequestSignature) -> (r: bool)
    ensures
        r == suspicious_sig(*sig),
{
    let mut hay: Vec<u8> = Vec::new();
    hay.extend_from_slice(sig.path.as_slice());
    hay.extend_from_slice(sig.query.as_slice());
    let ms = markers();
    let mut found = false;
    let mut k: usize = 0;
    while k < ms.len()
        invariant
            hay@ == sig.path@ + sig.query@,
            ms@.len() == marker_seqs().len(),
            forall|j: int| 0 <= j < ms@.len() ==> ms@[j]@ == #[trigger] marker_seqs()[j],
            k <= ms@.len(),
            found == exists|j: int|
                0 <= j < k && contains_seq(hay@, #[trigger] marker_seqs()[j]),
        decreases ms@.len() - k,
    {
        let hit = crate::bytes::contains_bytes(hay.as_slice(), ms[k].as_slice());
        if hit {
            assert(contains_seq(hay@, marker_seqs()[k as int]));
        }
        found = found || hit;
        k = k + 1;
    }
    found
}

} // verus!

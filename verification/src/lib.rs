//! An inline HTTP intercepting proxy core: local triage of inbound requests,
//! escalation of suspicious ones to a remote judgment service, and enforcement
//! of the resulting disposition (forward, block, or deceive-by-redirect).
//!
//! Everything here is pure logic over plain byte strings; the surrounding
//! program performs the actual network calls and feeds the results back in.

use vstd::prelude::*;

pub mod bytes;
pub mod json;
pub mod pipeline;
pub mod sentinel;
pub mod signature;
pub mod verdict;

pub use bytes::contains_bytes;
pub use bytes::bytes_eq;

verus! {

/// A sequence contains a marker iff the marker occurs as a contiguous
/// subrange somewhere inside it.
pub open spec fn contains_seq(hay: Seq<u8>, needle: Seq<u8>) -> bool {
    exists|i: int| #[trigger] bytes::matches_at(hay, needle, i)
}

} // verus!

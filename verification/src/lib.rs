//! Core logic for converting a Mermaid diagram description into a PNG or SVG
//! image by rendering it in a headless browser.
//!
//! This crate holds the verified render pipeline: the resource-store build
//! policy, the asset-server routing table, output-format selection, and the
//! browser-orchestration state machine. The unverified binary around it
//! performs the actual I/O: reading files, serving HTTP, and driving the
//! browser process with the actions this library decides on.

pub mod format;
pub mod orchestrator;
pub mod server;
pub mod store;

use vstd::prelude::*;

verus! {

/// Compare two strings character by character.
///
/// Returns whether the two strings hold the same sequence of characters.
pub fn str_eq(a: &str, b: &str) -> (r: bool)
    ensures
        r == (a@ == b@),
{
    let a_len = a.unicode_len();
    let b_len = b.unicode_len();
    if a_len != b_len {
        return false;
    }
    let mut i: usize = 0;
    while i < a_len
        invariant
            a_len == a@.len(),
            b_len == b@.len(),
            a_len == b_len,
            i <= a_len,
            forall|j: int| 0 <= j < i ==> a@[j] == b@[j],
        decreases a_len - i,
    {
        if a.get_char(i) != b.get_char(i) {
            return false;
        }
        i += 1;
    }
    proof {
        assert(a@ =~= b@);
    }
    true
}

} // verus!

//! Tool provisioning model.
//!
//! At startup the host materializes two bundled command-line tools (a static
//! analyzer and a code formatter) at deterministic paths in a shared
//! temporary location.  Extraction is idempotent: a file that is already
//! present is never rewritten, so its content (and timestamp) survive a
//! second run unchanged.  The surrounding binary performs the actual
//! filesystem probe and write; this module decides, and proves the
//! idempotence of that decision.

use vstd::prelude::*;

verus! {

/// The host's knowledge of one tool file at its target path: whether a file
/// is present there, and what it holds if so.
pub struct ToolFile {
    pub present: bool,
    pub content: Vec<u8>,
}

/// What one provisioning pass leaves at the target path, as a pair of the
/// presence flag and the content: an absent file is written from the bundled
/// blob, a present one is left exactly as it was.
pub open spec fn provisioned(present: bool, content: Seq<u8>, blob: Seq<u8>) -> (bool, Seq<u8>) {
    if present {
        (true, content)
    } else {
        (true, blob)
    }
}

impl ToolFile {
    pub open spec fn view_pair(self) -> (bool, Seq<u8>) {
        (self.present, self.content@)
    }
}

/// Ensure the tool is materialized: write the bundled blob only when no file
/// is present.  Returns whether a write is needed, so the caller can mirror
/// the decision on the real filesystem.
pub fn provision(file: &mut ToolFile, blob: &[u8]) -> (wrote: bool)
    ensures
        final(file).view_pair() == provisioned(
            old(file).present,
            old(file).content@,
            blob@,
        ),
        wrote == !old(file).present,
{
    if file.present {
        false
    } else {
        file.content = vstd::slice::slice_to_vec(blob);
        file.present = true;
        true
    }
}

/// Idempotence of provisioning: a second pass with the same blob changes
/// nothing, so an already-extracted tool is never rewritten.
pub proof fn lemma_provision_idempotent(present: bool, content: Seq<u8>, blob: Seq<u8>)
    ensures
        provisioned(
            provisioned(present, content, blob).0,
            provisioned(present, content, blob).1,
            blob,
        ) == provisioned(present, content, blob),
{
}

} // verus!

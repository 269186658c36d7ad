//! Content-sniffing of a media type from raw bytes, delegated to an outside
//! classifier.

use vstd::prelude::*;

verus! {

/// Relies on tree_magic_mini::from_u8: it walks the shared-MIME-info database
/// of the machine it runs on and returns its best-guess media type for the
/// bytes, falling back to a generic type when nothing matches. The answer
/// depends on that database, so nothing is promised about it.
#[verifier::external_body]
pub(crate) fn sniff_media_type(data: &[u8]) -> String {
    tree_magic_mini::from_u8(data).to_string()
}

} // verus!

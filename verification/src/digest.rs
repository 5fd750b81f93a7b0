//! One-way password digests, computed by the `sha256` crate.

use vstd::prelude::*;

verus! {

/// The lower-case hexadecimal SHA-256 digest of a text's UTF-8 bytes.
///
/// The digest is a function of the text alone; nothing else is claimed of it.
pub uninterp spec fn sha256_hex(text: Seq<char>) -> Seq<char>;

/// Calls `sha256::digest` on the text.
///
/// Trusted: the result is the digest named by [`sha256_hex`], the same for
/// the same text on every call.
#[verifier::external_body]
pub(crate) fn digest(text: &str) -> (hex: String)
    ensures
        hex@ == sha256_hex(text@),
{
    sha256::digest(text)
}

} // verus!

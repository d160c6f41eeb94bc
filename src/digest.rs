//! The content digest: SHA-256 of a text's UTF-8 bytes, written as upper-case
//! hexadecimal.
use sha2::Digest;
use vstd::prelude::*;

verus! {

/// The upper-case hexadecimal SHA-256 digest of the UTF-8 encoding of `text`.
pub uninterp spec fn sha256_upper_hex(text: Seq<char>) -> Seq<char>;

/// Relies on sha2::Sha256 (`new`, `update`, `finalize`) and on generic-array's
/// `UpperHex` for the digest: the result depends on the text alone.
#[verifier::external_body]
pub(crate) fn sha256_hex(text: &str) -> (r: String)
    ensures
        r@ == sha256_upper_hex(text@),
{
    let mut hasher = sha2::Sha256::new();
    hasher.update(text.as_bytes());
    format!("{:X}", hasher.finalize())
}

} // verus!

//! Digests of data, as lower-case hexadecimal text.

use sha2::Digest;
use vstd::prelude::*;

verus! {

/// The MD5 digest of the data, as 32 hexadecimal digits in lower case.
pub uninterp spec fn md5_hex(data: Seq<u8>) -> Seq<char>;

/// The SHA-256 digest of the data, as 64 hexadecimal digits in lower case.
pub uninterp spec fn sha256_hex(data: Seq<u8>) -> Seq<char>;

/// `md5::compute`, formatted with `{:x}`: the digest depends on the data
/// alone.
#[verifier::external_body]
pub(crate) fn md5_digest_hex(data: &[u8]) -> (r: String)
    ensures
        r@ == md5_hex(data@),
{
    format!("{:x}", md5::compute(data))
}

/// `sha2::Sha256::digest`, formatted with `{:x}`: the digest depends on the
/// data alone.
#[verifier::external_body]
pub(crate) fn sha256_digest_hex(data: &[u8]) -> (r: String)
    ensures
        r@ == sha256_hex(data@),
{
    format!("{:x}", sha2::Sha256::digest(data))
}

} // verus!

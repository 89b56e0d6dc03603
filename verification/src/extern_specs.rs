//! Trusted boundary: the few calls whose behaviour Verus takes on the word
//! of the callee's own source or documentation. Each digest value is named
//! by an uninterpreted function of the input bytes alone; everything said
//! about a digest string is proved from these names.

use vstd::prelude::*;
use sha1::{Digest, Sha1};
use sha2::{Sha256, Sha512};
use crate::digest::{crc32_of, md5_of, sha1_of, sha256_of, sha512_of};

verus! {

/// Relies on str's `==` (`PartialEq`): true exactly when the two string
/// slices hold the same characters.
#[verifier::external_body]
pub(crate) fn str_eq(a: &str, b: &str) -> (r: bool)
    ensures
        r == (a@ == b@),
{
    a == b
}

/// Relies on crc's `Crc::<u32>::checksum` over the catalog's `CRC_32_ISO_HDLC`
/// algorithm: a 32-bit checksum determined by the input bytes alone.
#[verifier::external_body]
pub(crate) fn crc32_checksum(data: &[u8]) -> (r: u32)
    ensures
        r == crc32_of(data@),
{
    crc::Crc::<u32>::new(&crc::CRC_32_ISO_HDLC).checksum(data)
}

/// Relies on md5's `compute` (`Context::new`, `consume`, `compute` in one
/// call): a 128-bit digest determined by the input bytes alone.
#[verifier::external_body]
pub(crate) fn md5_digest(data: &[u8]) -> (r: Vec<u8>)
    ensures
        r@ == md5_of(data@),
        r@.len() == 16,
{
    md5::compute(data).0.to_vec()
}

/// Relies on sha1's `Sha1` through the `Digest` trait's one-shot `digest`:
/// a 160-bit digest determined by the input bytes alone.
#[verifier::external_body]
pub(crate) fn sha1_digest(data: &[u8]) -> (r: Vec<u8>)
    ensures
        r@ == sha1_of(data@),
        r@.len() == 20,
{
    Sha1::digest(data).to_vec()
}

/// Relies on sha2's `Sha256` through the `Digest` trait's one-shot `digest`:
/// a 256-bit digest determined by the input bytes alone.
#[verifier::external_body]
pub(crate) fn sha256_digest(data: &[u8]) -> (r: Vec<u8>)
    ensures
        r@ == sha256_of(data@),
        r@.len() == 32,
{
    Sha256::digest(data).to_vec()
}

/// Relies on sha2's `Sha512` through the `Digest` trait's one-shot `digest`:
/// a 512-bit digest determined by the input bytes alone.
#[verifier::external_body]
pub(crate) fn sha512_digest(data: &[u8]) -> (r: Vec<u8>)
    ensures
        r@ == sha512_of(data@),
        r@.len() == 64,
{
    Sha512::digest(data).to_vec()
}

} // verus!

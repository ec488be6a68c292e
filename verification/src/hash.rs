//! Digest computation and verification.
//!
//! The digests themselves come from the `sha1` and `sha2` crates and are
//! named, not restated: `sha1_digest_of` and `sha256_digest_of` stand for
//! whatever those crates compute on the given bytes. Hex encoding is fully
//! specified, so everything downstream of the digest — encoding, algorithm
//! tag parsing, comparison against an expected value — is verified exactly.

use vstd::prelude::*;
use crate::error::Error;

verus! {

/// The digest algorithms the engine accepts.
#[derive(Clone, Copy, Debug, PartialEq, Eq, Structural)]
pub enum HashAlgorithm {
    Sha1,
    Sha256,
}

/// The SHA-1 digest of `data`, as the `sha1` crate computes it.
pub uninterp spec fn sha1_digest_of(data: Seq<u8>) -> Seq<u8>;

/// The SHA-256 digest of `data`, as the `sha2` crate computes it.
pub uninterp spec fn sha256_digest_of(data: Seq<u8>) -> Seq<u8>;

/// The lowercase hex character for a nibble.
pub open spec fn hex_digit(n: u8) -> char {
    if n < 10 {
        (n + 48) as char
    } else {
        (n + 87) as char
    }
}

/// Lowercase hex encoding: two digits per byte, high nibble first.
pub open spec fn hex_of(data: Seq<u8>) -> Seq<char>
    decreases data.len(),
{
    if data.len() == 0 {
        Seq::empty()
    } else {
        seq![hex_digit(data.first() >> 4), hex_digit(data.first() & 0x0f)] + hex_of(
            data.drop_first(),
        )
    }
}

/// The digest of `data` under `alg`.
pub open spec fn digest_of(alg: HashAlgorithm, data: Seq<u8>) -> Seq<u8> {
    match alg {
        HashAlgorithm::Sha1 => sha1_digest_of(data),
        HashAlgorithm::Sha256 => sha256_digest_of(data),
    }
}

/// The lowercase hex rendering of the digest of `data` under `alg`.
pub open spec fn hex_digest_of(alg: HashAlgorithm, data: Seq<u8>) -> Seq<char> {
    hex_of(digest_of(alg, data))
}

/// Relies on `sha1::Sha1` through `Digest::digest`: the digest is a function
/// of the input bytes alone, and is 20 bytes long.
#[verifier::external_body]
fn sha1_bytes(data: &[u8]) -> (r: Vec<u8>)
    ensures
        r@ == sha1_digest_of(data@),
        r@.len() == 20,
{
    <sha1::Sha1 as sha1::Digest>::digest(data).to_vec()
}

/// Relies on `sha2::Sha256` through `Digest::digest`: the digest is a function
/// of the input bytes alone, and is 32 bytes long.
#[verifier::external_body]
fn sha256_bytes(data: &[u8]) -> (r: Vec<u8>)
    ensures
        r@ == sha256_digest_of(data@),
        r@.len() == 32,
{
    <sha2::Sha256 as sha2::Digest>::digest(data).to_vec()
}

/// Relies on `base16ct::lower::encode_string`: two lowercase hex digits per
/// input byte, high nibble first, in input order. Panics only when the input
/// is longer than half the address space, which the precondition excludes.
#[verifier::external_body]
fn hex_lower(data: &Vec<u8>) -> (r: String)
    requires
        data@.len() <= usize::MAX / 2,
    ensures
        r@ == hex_of(data@),
{
    base16ct::lower::encode_string(data.as_slice())
}

/// The lowercase hex digest of `data` under `alg`.
pub fn calc_hash(data: &[u8], alg: HashAlgorithm) -> (r: String)
    ensures
        r@ == hex_digest_of(alg, data@),
{
    let digest = match alg {
        HashAlgorithm::Sha1 => sha1_bytes(data),
        HashAlgorithm::Sha256 => sha256_bytes(data),
    };
    hex_lower(&digest)
}

/// Does the digest of `data` under `alg` render as exactly `expected`?
pub fn matches_digest(data: &[u8], expected: &String, alg: HashAlgorithm) -> (r: bool)
    ensures
        r == (hex_digest_of(alg, data@) == expected@),
{
    let computed = calc_hash(data, alg);
    computed.eq(expected)
}

/// The algorithm a tag names: only "sha1" and "sha256" are known.
pub open spec fn spec_parse_algorithm(tag: Seq<char>) -> Result<HashAlgorithm, Error> {
    if tag == "sha1"@ {
        Ok(HashAlgorithm::Sha1)
    } else if tag == "sha256"@ {
        Ok(HashAlgorithm::Sha256)
    } else {
        Err(Error::UnsupportedAlgorithm)
    }
}

/// Parse a digest algorithm tag.
pub fn parse_algorithm(tag: &str) -> (r: Result<HashAlgorithm, Error>)
    ensures
        r == spec_parse_algorithm(tag@),
{
    if crate::strutil::str_eq(tag, "sha1") {
        Ok(HashAlgorithm::Sha1)
    } else if crate::strutil::str_eq(tag, "sha256") {
        Ok(HashAlgorithm::Sha256)
    } else {
        Err(Error::UnsupportedAlgorithm)
    }
}

/// The verdict of checking `data` against an expected hex digest under a tag:
/// an unknown tag is `UnsupportedAlgorithm`, a non-matching digest is
/// `IntegrityMismatch`.
pub open spec fn spec_check_hash(data: Seq<u8>, expected: Seq<char>, tag: Seq<char>) -> Result<
    (),
    Error,
> {
    match spec_parse_algorithm(tag) {
        Err(e) => Err(e),
        Ok(alg) => if hex_digest_of(alg, data) == expected {
            Ok(())
        } else {
            Err(Error::IntegrityMismatch)
        },
    }
}

/// Check `data` against an expected lowercase hex digest under an algorithm tag.
pub fn check_hash(data: &[u8], expected: &String, tag: &String) -> (r: Result<(), Error>)
    ensures
        r == spec_check_hash(data@, expected@, tag@),
{
    let alg = match parse_algorithm(tag.as_str()) {
        Ok(alg) => alg,
        Err(e) => {
            return Err(e);
        },
    };
    if matches_digest(data, expected, alg) {
        Ok(())
    } else {
        Err(Error::IntegrityMismatch)
    }
}

} // verus!

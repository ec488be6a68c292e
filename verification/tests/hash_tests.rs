use ice_launcher::error::Error;
use ice_launcher::hash::{calc_hash, check_hash, matches_digest, parse_algorithm, HashAlgorithm};

#[test]
fn sha1_known_vector() {
    assert_eq!(
        calc_hash(b"abc", HashAlgorithm::Sha1),
        "a9993e364706816aba3e25717850c26c9cd0d89d"
    );
}

#[test]
fn sha1_empty_input() {
    assert_eq!(
        calc_hash(b"", HashAlgorithm::Sha1),
        "da39a3ee5e6b4b0d3255bfef95601890afd80709"
    );
}

#[test]
fn sha256_known_vector() {
    assert_eq!(
        calc_hash(b"abc", HashAlgorithm::Sha256),
        "ba7816bf8f01cfea414140de5dae2223b00361a396177a9cb410ff61f20015ad"
    );
}

#[test]
fn sha256_empty_input() {
    assert_eq!(
        calc_hash(b"", HashAlgorithm::Sha256),
        "e3b0c44298fc1c149afbf4c8996fb92427ae41e4649b934ca495991b7852b855"
    );
}

#[test]
fn matches_digest_accepts_and_rejects() {
    let good = String::from("a9993e364706816aba3e25717850c26c9cd0d89d");
    let bad = String::from("0000000000000000000000000000000000000000");
    assert!(matches_digest(b"abc", &good, HashAlgorithm::Sha1));
    assert!(!matches_digest(b"abc", &bad, HashAlgorithm::Sha1));
}

#[test]
fn parse_algorithm_tags() {
    assert_eq!(parse_algorithm("sha1"), Ok(HashAlgorithm::Sha1));
    assert_eq!(parse_algorithm("sha256"), Ok(HashAlgorithm::Sha256));
    assert_eq!(parse_algorithm("md5"), Err(Error::UnsupportedAlgorithm));
    assert_eq!(parse_algorithm(""), Err(Error::UnsupportedAlgorithm));
}

#[test]
fn check_hash_verdicts() {
    let sha1 = String::from("sha1");
    let sha256 = String::from("sha256");
    let crc = String::from("crc32");
    let good = String::from("a9993e364706816aba3e25717850c26c9cd0d89d");
    let bad = String::from("a9993e364706816aba3e25717850c26c9cd0d89e");
    assert_eq!(check_hash(b"abc", &good, &sha1), Ok(()));
    assert_eq!(check_hash(b"abc", &bad, &sha1), Err(Error::IntegrityMismatch));
    assert_eq!(check_hash(b"abc", &good, &crc), Err(Error::UnsupportedAlgorithm));
    let good256 = String::from("ba7816bf8f01cfea414140de5dae2223b00361a396177a9cb410ff61f20015ad");
    assert_eq!(check_hash(b"abc", &good256, &sha256), Ok(()));
    assert_eq!(check_hash(b"abd", &good256, &sha256), Err(Error::IntegrityMismatch));
}

#[test]
fn error_messages() {
    assert_eq!(Error::TransferFailed.message(), "transfer failed");
    assert_eq!(Error::IntegrityMismatch.message(), "hash mismatch");
    assert_eq!(Error::UnsupportedAlgorithm.message(), "unsupported hash function");
    assert_eq!(Error::UnsupportedArchiveFormat.message(), "unsupported archive format");
    assert_eq!(Error::InvalidPath.message(), "invalid path");
    assert_eq!(Error::RuntimeNotFound.message(), "no runtime found");
    assert_eq!(Error::ParseError.message(), "malformed document");
}

//! The agent's self-update: which release is newer, where its files are, and
//! whether a downloaded binary matches its published checksum.

use vstd::prelude::*;
use sha2::Digest;
use crate::json::{get_in, parse_json, spec_get_in, spec_parse_json, spec_text, text};
use crate::text::{
    first_whitespace_word, first_word, owned, trim_start_char, trim_start_matches_char,
    trim_start_matches_str, trim_start_seq,
};

verus! {

broadcast use vstd::string::group_string_axioms;

/// The version that a release tag names: the tag without its leading
/// `agent-` prefixes, then without its leading `v`s.
pub open spec fn spec_release_version(tag_name: Seq<char>) -> Seq<char> {
    trim_start_char(trim_start_seq(tag_name, "agent-"@), 'v')
}

/// Reads the version out of a release tag such as `agent-v1.4.0`.
pub fn release_version(tag_name: &str) -> (r: String)
    ensures
        r@ == spec_release_version(tag_name@),
{
    proof {
        reveal_strlit("agent-");
    }
    let without_prefix = trim_start_matches_str(tag_name, "agent-");
    trim_start_matches_char(without_prefix.as_str(), 'v')
}

/// The newer version that the latest release tag offers: its version when
/// that differs from the running one, nothing otherwise.
pub fn newer_release(tag_name: &str, current_version: &str) -> (r: Option<String>)
    ensures
        match r {
            Some(v) => v@ == spec_release_version(tag_name@) && v@ != current_version@,
            None => spec_release_version(tag_name@) == current_version@,
        },
{
    let latest = release_version(tag_name);
    if latest == owned(current_version) {
        None
    } else {
        Some(latest)
    }
}

/// The newer version that the latest-release reply `body` offers: the
/// version of its `tag_name` when that is a string naming another version
/// than the running one; nothing when the body is not JSON, has no string
/// `tag_name`, or names the running version.
pub fn newer_release_in(body: &str, current_version: &str) -> (r: Option<String>)
    ensures
        match spec_text(spec_get_in(spec_parse_json(body@), "tag_name"@)) {
            Some(t) => match r {
                Some(v) => v@ == spec_release_version(t@) && v@ != current_version@,
                None => spec_release_version(t@) == current_version@,
            },
            None => r is None,
        },
{
    let doc = parse_json(body);
    let tag = match &doc {
        Some(d) => text(get_in(Some(d), "tag_name")),
        None => None,
    };
    match tag {
        Some(t) => newer_release(t.as_str(), current_version),
        None => None,
    }
}

/// Where release `version` publishes the agent binary for `arch`.
pub open spec fn spec_binary_url(version: Seq<char>, arch: Seq<char>) -> Seq<char> {
    "https://github.com/doublej0/dockup/releases/download/agent-"@ + version + "/dockup-agent-"@
        + arch
}

/// The URL of the agent binary of release `version` for `arch`.
pub fn binary_url(version: &str, arch: &str) -> (r: String)
    ensures
        r@ == spec_binary_url(version@, arch@),
{
    let mut u = owned("https://github.com/doublej0/dockup/releases/download/agent-");
    u.append(version);
    u.append("/dockup-agent-");
    u.append(arch);
    u
}

/// The URL of the SHA-256 checksum file of that binary.
pub fn checksum_url(version: &str, arch: &str) -> (r: String)
    ensures
        r@ == spec_binary_url(version@, arch@) + ".sha256"@,
{
    let mut u = binary_url(version, arch);
    u.append(".sha256");
    u
}

// ---------------------------------------------------------------- checksums

/// The SHA-256 digest of `data`, as computed by the `sha2` crate.
pub uninterp spec fn sha256_of(data: Seq<u8>) -> Seq<u8>;

/// The SHA-256 digest of `data`: `sha2::Sha256::new()`, `update(data)`,
/// `finalize()`. The digest itself is named, not computed here; its length is
/// the 32 bytes of the algorithm's output size.
#[verifier::external_body]
pub fn sha256_digest(data: &[u8]) -> (r: Vec<u8>)
    ensures
        r@ == sha256_of(data@),
        r@.len() == 32,
{
    let mut hasher = sha2::Sha256::new();
    hasher.update(data);
    hasher.finalize().to_vec()
}

/// The lower-case hexadecimal digit of a value below 16.
pub open spec fn hex_digit(v: int) -> char {
    if v < 10 {
        ('0' as int + v) as char
    } else {
        ('a' as int + v - 10) as char
    }
}

/// The lower-case hexadecimal text of `data`: two digits per byte, high
/// nibble first.
pub open spec fn spec_hex_lower(data: Seq<u8>) -> Seq<char> {
    Seq::new(
        2 * data.len(),
        |i: int|
            if i % 2 == 0 {
                hex_digit(data[i / 2] as int / 16)
            } else {
                hex_digit(data[i / 2] as int % 16)
            },
    )
}

/// `hex::encode(data)`: the lower-case hexadecimal text of the bytes, two
/// digits per byte, high nibble first, as the crate's source writes it.
#[verifier::external_body]
pub fn hex_encode(data: &[u8]) -> (r: String)
    ensures
        r@ == spec_hex_lower(data@),
{
    hex::encode(data)
}

/// Why a downloaded agent binary is refused.
#[derive(Debug)]
pub enum ChecksumError {
    /// The checksum file holds no word.
    InvalidFormat,
    /// The published checksum differs from that of the download.
    Mismatch { expected: String, actual: String },
}

/// What a checksum file with text `checksum_text` says of a binary whose
/// SHA-256 in hexadecimal is `actual`: accepted when its first word equals
/// `actual`.
pub open spec fn spec_check(checksum_text: Seq<char>, actual: Seq<char>, r: Result<(), ChecksumError>) -> bool {
    match first_word(checksum_text) {
        None => r == Err::<(), ChecksumError>(ChecksumError::InvalidFormat),
        Some(expected) => if expected == actual {
            r is Ok
        } else {
            r matches Err(ChecksumError::Mismatch { expected: e, actual: a }) && e@ == expected
                && a@ == actual
        },
    }
}

/// Compares the checksum file's first word with the hexadecimal digest of
/// the download.
pub fn check_checksum(checksum_text: &str, actual_hash: String) -> (r: Result<(), ChecksumError>)
    ensures
        spec_check(checksum_text@, actual_hash@, r),
{
    let expected = match first_whitespace_word(checksum_text) {
        Some(w) => w,
        None => return Err(ChecksumError::InvalidFormat),
    };
    if actual_hash == expected {
        Ok(())
    } else {
        Err(ChecksumError::Mismatch { expected, actual: actual_hash })
    }
}

/// Verifies a downloaded binary against the text of its checksum file.
pub fn verify_binary(binary: &[u8], checksum_text: &str) -> (r: Result<(), ChecksumError>)
    ensures
        spec_check(checksum_text@, spec_hex_lower(sha256_of(binary@)), r),
{
    let digest = sha256_digest(binary);
    let actual = hex_encode(digest.as_slice());
    check_checksum(checksum_text, actual)
}

/// A binary is installed only when the checksum file's first word is the
/// lower-case hexadecimal SHA-256 of the download.
pub proof fn law_install_only_matching_binary(checksum_text: Seq<char>, binary: Seq<u8>, r: Result<(), ChecksumError>)
    requires
        spec_check(checksum_text, spec_hex_lower(sha256_of(binary)), r),
    ensures
        r is Ok <==> first_word(checksum_text) == Some(spec_hex_lower(sha256_of(binary))),
{
}

} // verus!

//! The four digests a PSBT input may carry preimages for, computed and
//! decoded by the `bitcoin_hashes` crate.
//!
//! The hash functions themselves are not verified here. Their results are
//! named by two uninterpreted functions, [`ripemd160_digest`] and
//! [`sha256_digest`], and everything this crate proves about digests is
//! proved relative to those names.

use vstd::prelude::*;
use crate::text::decimal_text;

verus! {

/// The hash function a preimage field of a PSBT input refers to.
#[derive(Debug, Clone, Copy, PartialEq, Eq, Structural)]
pub enum PsbtHash {
    /// RIPEMD-160.
    Ripemd,
    /// SHA-256.
    Sha256,
    /// RIPEMD-160 of SHA-256.
    Hash160,
    /// SHA-256 of SHA-256.
    Hash256,
}

/// Why a byte string could not be taken as a digest.
#[derive(Debug, Clone, Copy, PartialEq, Eq, Structural)]
pub enum HashError {
    /// The byte string does not have the length of the digest: the length
    /// that was expected, then the length that was offered.
    InvalidLength(usize, usize),
}

/// The RIPEMD-160 digest of `data`.
pub uninterp spec fn ripemd160_digest(data: Seq<u8>) -> Seq<u8>;

/// The SHA-256 digest of `data`.
pub uninterp spec fn sha256_digest(data: Seq<u8>) -> Seq<u8>;

/// The digest of `data` under the hash function that `kind` names.
pub open spec fn digest_of(kind: PsbtHash, data: Seq<u8>) -> Seq<u8> {
    match kind {
        PsbtHash::Ripemd => ripemd160_digest(data),
        PsbtHash::Sha256 => sha256_digest(data),
        PsbtHash::Hash160 => ripemd160_digest(sha256_digest(data)),
        PsbtHash::Hash256 => sha256_digest(sha256_digest(data)),
    }
}

/// HASH160 is RIPEMD-160 of SHA-256, and HASH256 is SHA-256 of SHA-256.
pub proof fn lemma_composite_digests(data: Seq<u8>)
    ensures
        digest_of(PsbtHash::Hash160, data) == digest_of(
            PsbtHash::Ripemd,
            digest_of(PsbtHash::Sha256, data),
        ),
        digest_of(PsbtHash::Hash256, data) == digest_of(
            PsbtHash::Sha256,
            digest_of(PsbtHash::Sha256, data),
        ),
{
}

/// What decoding `bytes` as a digest of `len` bytes gives: the bytes
/// themselves when there are `len` of them, and otherwise the two lengths.
pub open spec fn decoded_digest(bytes: Seq<u8>, len: usize) -> Result<Seq<u8>, HashError> {
    if bytes.len() == len {
        Ok(bytes)
    } else {
        Err(HashError::InvalidLength(len, bytes.len() as usize))
    }
}

/// What a decoding result stands for.
pub open spec fn decoding_view(decoded: Result<Vec<u8>, HashError>) -> Result<Seq<u8>, HashError> {
    match decoded {
        Ok(digest) => Ok(digest@),
        Err(e) => Err(e),
    }
}

/// How a decoding failure reads in a diagnostic.
pub open spec fn hash_error_text(e: HashError) -> Seq<char> {
    match e {
        HashError::InvalidLength(expected, got) => "bad slice length "@ + decimal_text(got as nat)
            + " (expected "@ + decimal_text(expected as nat) + ")"@,
    }
}

/// Calls `bitcoin_hashes::ripemd160::Hash::hash`. Trusted: the 20 bytes that
/// come back are what [`ripemd160_digest`] names.
#[verifier::external_body]
fn ripemd160(data: &[u8]) -> (digest: Vec<u8>)
    ensures
        digest@ == ripemd160_digest(data@),
        digest@.len() == 20,
{
    <bitcoin_hashes::ripemd160::Hash as bitcoin_hashes::Hash>::hash(data)[..].to_vec()
}

/// Calls `bitcoin_hashes::sha256::Hash::hash`. Trusted: the 32 bytes that
/// come back are what [`sha256_digest`] names.
#[verifier::external_body]
fn sha256(data: &[u8]) -> (digest: Vec<u8>)
    ensures
        digest@ == sha256_digest(data@),
        digest@.len() == 32,
{
    <bitcoin_hashes::sha256::Hash as bitcoin_hashes::Hash>::hash(data)[..].to_vec()
}

/// Calls `bitcoin_hashes::hash160::Hash::hash`. Trusted: the 20 bytes that
/// come back are the RIPEMD-160 digest of the SHA-256 digest of `data`, which
/// is how that function computes them.
#[verifier::external_body]
fn hash160(data: &[u8]) -> (digest: Vec<u8>)
    ensures
        digest@ == ripemd160_digest(sha256_digest(data@)),
        digest@.len() == 20,
{
    <bitcoin_hashes::hash160::Hash as bitcoin_hashes::Hash>::hash(data)[..].to_vec()
}

/// Calls `bitcoin_hashes::sha256d::Hash::hash`. Trusted: the 32 bytes that
/// come back are the SHA-256 digest of the SHA-256 digest of `data`, which is
/// how that function computes them.
#[verifier::external_body]
fn sha256d(data: &[u8]) -> (digest: Vec<u8>)
    ensures
        digest@ == sha256_digest(sha256_digest(data@)),
        digest@.len() == 32,
{
    <bitcoin_hashes::sha256d::Hash as bitcoin_hashes::Hash>::hash(data)[..].to_vec()
}

/// Calls `bitcoin_hashes::ripemd160::Hash::from_slice`. Trusted: it accepts
/// exactly the slices of 20 bytes and keeps their bytes, and reports the
/// expected and the offered length otherwise.
#[verifier::external_body]
fn ripemd160_from_slice(bytes: &[u8]) -> (decoded: Result<Vec<u8>, HashError>)
    ensures
        decoding_view(decoded) == decoded_digest(bytes@, 20),
{
    match <bitcoin_hashes::ripemd160::Hash as bitcoin_hashes::Hash>::from_slice(bytes) {
        Ok(digest) => Ok(digest[..].to_vec()),
        Err(bitcoin_hashes::Error::InvalidLength(expected, got)) => Err(
            HashError::InvalidLength(expected, got),
        ),
    }
}

/// Calls `bitcoin_hashes::sha256::Hash::from_slice`. Trusted: it accepts
/// exactly the slices of 32 bytes and keeps their bytes, and reports the
/// expected and the offered length otherwise.
#[verifier::external_body]
fn sha256_from_slice(bytes: &[u8]) -> (decoded: Result<Vec<u8>, HashError>)
    ensures
        decoding_view(decoded) == decoded_digest(bytes@, 32),
{
    match <bitcoin_hashes::sha256::Hash as bitcoin_hashes::Hash>::from_slice(bytes) {
        Ok(digest) => Ok(digest[..].to_vec()),
        Err(bitcoin_hashes::Error::InvalidLength(expected, got)) => Err(
            HashError::InvalidLength(expected, got),
        ),
    }
}

/// Calls `bitcoin_hashes::hash160::Hash::from_slice`. Trusted: it accepts
/// exactly the slices of 20 bytes and keeps their bytes, and reports the
/// expected and the offered length otherwise.
#[verifier::external_body]
fn hash160_from_slice(bytes: &[u8]) -> (decoded: Result<Vec<u8>, HashError>)
    ensures
        decoding_view(decoded) == decoded_digest(bytes@, 20),
{
    match <bitcoin_hashes::hash160::Hash as bitcoin_hashes::Hash>::from_slice(bytes) {
        Ok(digest) => Ok(digest[..].to_vec()),
        Err(bitcoin_hashes::Error::InvalidLength(expected, got)) => Err(
            HashError::InvalidLength(expected, got),
        ),
    }
}

/// Calls `bitcoin_hashes::sha256d::Hash::from_slice`. Trusted: it accepts
/// exactly the slices of 32 bytes and keeps their bytes, and reports the
/// expected and the offered length otherwise.
#[verifier::external_body]
fn sha256d_from_slice(bytes: &[u8]) -> (decoded: Result<Vec<u8>, HashError>)
    ensures
        decoding_view(decoded) == decoded_digest(bytes@, 32),
{
    match <bitcoin_hashes::sha256d::Hash as bitcoin_hashes::Hash>::from_slice(bytes) {
        Ok(digest) => Ok(digest[..].to_vec()),
        Err(bitcoin_hashes::Error::InvalidLength(expected, got)) => Err(
            HashError::InvalidLength(expected, got),
        ),
    }
}

/// Renders a decoding failure with the `Display` of `bitcoin_hashes::Error`.
/// Trusted: that rendering is the sentence "bad slice length G (expected E)"
/// with the offered length G and the expected length E in decimal.
#[verifier::external_body]
fn hash_error_message(e: HashError) -> (s: String)
    ensures
        s@ == hash_error_text(e),
{
    match e {
        HashError::InvalidLength(expected, got) => bitcoin_hashes::Error::InvalidLength(
            expected,
            got,
        ).to_string(),
    }
}

impl PsbtHash {
    /// Number of bytes in a digest of this kind.
    pub open spec fn spec_digest_len(self) -> usize {
        match self {
            PsbtHash::Ripemd | PsbtHash::Hash160 => 20,
            PsbtHash::Sha256 | PsbtHash::Hash256 => 32,
        }
    }

    /// Number of bytes in a digest of this kind.
    #[verifier::when_used_as_spec(spec_digest_len)]
    pub fn digest_len(self) -> (n: usize)
        ensures
            n == self.spec_digest_len(),
    {
        match self {
            PsbtHash::Ripemd | PsbtHash::Hash160 => 20,
            PsbtHash::Sha256 | PsbtHash::Hash256 => 32,
        }
    }

    /// How this kind is called in a diagnostic.
    pub open spec fn spec_name(self) -> Seq<char> {
        match self {
            PsbtHash::Ripemd => "Ripemd"@,
            PsbtHash::Sha256 => "Sha256"@,
            PsbtHash::Hash160 => "Hash160"@,
            PsbtHash::Hash256 => "Hash256"@,
        }
    }

    /// How this kind is called in a diagnostic.
    pub fn name(self) -> (s: &'static str)
        ensures
            s@ == self.spec_name(),
    {
        match self {
            PsbtHash::Ripemd => "Ripemd",
            PsbtHash::Sha256 => "Sha256",
            PsbtHash::Hash160 => "Hash160",
            PsbtHash::Hash256 => "Hash256",
        }
    }

    /// Hashes `data` with the hash function that this kind names.
    pub fn hash(self, data: &[u8]) -> (digest: Vec<u8>)
        ensures
            digest@ == digest_of(self, data@),
            digest@.len() == self.spec_digest_len(),
    {
        match self {
            PsbtHash::Ripemd => ripemd160(data),
            PsbtHash::Sha256 => sha256(data),
            PsbtHash::Hash160 => hash160(data),
            PsbtHash::Hash256 => sha256d(data),
        }
    }

    /// Takes `bytes` as a digest of this kind, which they are when their
    /// number is that of the digest.
    pub fn digest_from_slice(self, bytes: &[u8]) -> (decoded: Result<Vec<u8>, HashError>)
        ensures
            decoding_view(decoded) == decoded_digest(bytes@, self.spec_digest_len()),
    {
        match self {
            PsbtHash::Ripemd => ripemd160_from_slice(bytes),
            PsbtHash::Sha256 => sha256_from_slice(bytes),
            PsbtHash::Hash160 => hash160_from_slice(bytes),
            PsbtHash::Hash256 => sha256d_from_slice(bytes),
        }
    }
}

impl HashError {
    /// The rendering of this failure.
    pub fn to_string(&self) -> (s: String)
        ensures
            s@ == hash_error_text(*self),
    {
        hash_error_message(*self)
    }
}

} // verus!

//! The address of an account, derived from its public key.

use crate::keyring::error::KeyringError;
use bech32::Bech32;
use bech32::Hrp;
use ripemd::Ripemd160;
use sha2::Digest;
use sha2::Sha256;
use vstd::prelude::*;

verus! {

/// The SHA-256 digest of `data`.
pub uninterp spec fn sha256_digest(data: Seq<u8>) -> Seq<u8>;

/// The RIPEMD-160 digest of `data`.
pub uninterp spec fn ripemd160_digest(data: Seq<u8>) -> Seq<u8>;

/// `data` in Bech32 under the human-readable part `prefix`, or the text of
/// the error where the prefix or the data cannot be encoded.
pub uninterp spec fn bech32_text(prefix: Seq<char>, data: Seq<u8>) -> Result<Seq<char>, Seq<char>>;

/// Hashes `data` with `sha2::Sha256::digest`. The digest depends on the data
/// alone and is 32 bytes long.
#[verifier::external_body]
fn sha256(data: &[u8]) -> (digest: Vec<u8>)
    ensures
        digest@ == sha256_digest(data@),
        digest@.len() == 32,
{
    Sha256::digest(data).to_vec()
}

/// Hashes `data` with `ripemd::Ripemd160::digest`. The digest depends on the
/// data alone and is 20 bytes long.
#[verifier::external_body]
fn ripemd160(data: &[u8]) -> (digest: Vec<u8>)
    ensures
        digest@ == ripemd160_digest(data@),
        digest@.len() == 20,
{
    Ripemd160::digest(data).to_vec()
}

/// Encodes `data` in Bech32: parses the human-readable part with
/// `bech32::Hrp::parse` and encodes with `bech32::encode`, with the checksum
/// of `bech32::Bech32`. The outcome, the text or the text of either call's
/// error, depends on the prefix and the data alone.
#[verifier::external_body]
fn bech32_encode(prefix: &str, data: &[u8]) -> (r: Result<String, String>)
    ensures
        match r {
            Ok(text) => bech32_text(prefix@, data@) == Ok::<Seq<char>, Seq<char>>(text@),
            Err(cause) => bech32_text(prefix@, data@) == Err::<Seq<char>, Seq<char>>(cause@),
        },
{
    match Hrp::parse(prefix) {
        Ok(hrp) => match bech32::encode::<Bech32>(hrp, data) {
            Ok(text) => Ok(text),
            Err(e) => Err(e.to_string()),
        },
        Err(e) => Err(e.to_string()),
    }
}

/// The address of the account with this public key under `prefix`: the
/// RIPEMD-160 digest of the SHA-256 digest of the key, in Bech32.
pub open spec fn address_of(public_key: Seq<u8>, prefix: Seq<char>) -> Result<Seq<char>, Seq<char>> {
    bech32_text(prefix, ripemd160_digest(sha256_digest(public_key)))
}

/// Turns the outcome of an encoding into the keyring's own terms.
pub fn address_result(outcome: Result<String, String>) -> (r: Result<String, KeyringError>)
    ensures
        match outcome {
            Ok(text) => r matches Ok(address) && address@ == text@,
            Err(cause) => r matches Err(KeyringError::AddressError(text)) && text@ == cause@,
        },
{
    match outcome {
        Ok(text) => Ok(text),
        Err(cause) => Err(KeyringError::AddressError(cause)),
    }
}

/// Derives the address of the account with this public key.
pub fn derive_address(public_key: &[u8], prefix: &str) -> (r: Result<String, KeyringError>)
    ensures
        match address_of(public_key@, prefix@) {
            Ok(text) => r matches Ok(address) && address@ == text,
            Err(cause) => r matches Err(KeyringError::AddressError(text)) && text@ == cause,
        },
{
    let sha_hash = sha256(public_key);
    let ripe_hash = ripemd160(sha_hash.as_slice());
    address_result(bech32_encode(prefix, ripe_hash.as_slice()))
}

} // verus!

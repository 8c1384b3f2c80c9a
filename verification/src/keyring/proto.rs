//! The messages of a Cosmos SDK keyring record, as plain values.

use vstd::prelude::*;

verus! {

/// A typed message: the URL of its type and its bytes.
#[derive(Debug, Clone)]
pub struct Any {
    pub type_url: String,
    pub value: Vec<u8>,
}

/// The record of one key.
#[derive(Debug, Clone)]
pub struct Record {
    pub name: String,
    pub pub_key: Option<Any>,
    pub local: Option<LocalInfo>,
}

/// What a record holds of a key that is stored locally.
#[derive(Debug, Clone)]
pub struct LocalInfo {
    pub priv_key: Option<Any>,
}

/// A secp256k1 public key.
#[derive(Debug, Clone)]
pub struct Secp256k1PubKey {
    pub key: Vec<u8>,
}

/// A secp256k1 private key.
#[derive(Debug, Clone)]
pub struct Secp256k1PrivKey {
    pub key: Vec<u8>,
}

/// The type URL of a secp256k1 public key.
pub const SECP256K1_PUBKEY_TYPE_URL: &'static str = "/cosmos.crypto.secp256k1.PubKey";

/// The type URL of a secp256k1 private key.
pub const SECP256K1_PRIVKEY_TYPE_URL: &'static str = "/cosmos.crypto.secp256k1.PrivKey";

} // verus!

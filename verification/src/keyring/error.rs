//! What can go wrong while a key is read from a keyring.

use vstd::prelude::*;
use vstd::string::StringExecFns;

verus! {

/// An error met while a keyring is opened or a key is read from it.
#[derive(Debug)]
pub enum KeyringError {
    /// The keyring's directory does not exist; the path is given.
    DirectoryNotFound(String),
    /// No key of this name is in the keyring.
    KeyNotFound(String),
    /// No key with this address is in the keyring.
    AddressNotFound(String),
    /// The keyring holds no key at all.
    NoKeysFound,
    /// The key of this name is not stored locally.
    NotLocalKey(String),
    /// The record holds no private key.
    MissingPrivateKey,
    /// The record holds no public key.
    MissingPublicKey,
    /// The key is of a type other than secp256k1; its type is given.
    UnsupportedKeyType(String),
    /// The key file could not be decrypted.
    DecryptionFailed(String),
    /// The decrypted record is malformed.
    ProtobufError(String),
    /// No address could be derived from the public key.
    AddressError(String),
    /// The user's home directory is not known.
    HomeDirNotFound,
    /// Reading the keyring failed; the cause is given.
    IoError(String),
}

/// The text of a [`KeyringError`].
pub open spec fn keyring_error_text(e: KeyringError) -> Seq<char> {
    match e {
        KeyringError::DirectoryNotFound(path) => "keyring directory not found: "@ + path@,
        KeyringError::KeyNotFound(name) => "key not found: "@ + name@,
        KeyringError::AddressNotFound(address) => "address not found: "@ + address@,
        KeyringError::NoKeysFound => "no keys in keyring"@,
        KeyringError::NotLocalKey(name) => "key '"@ + name@
            + "' is not a local key (ledger/multi/offline)"@,
        KeyringError::MissingPrivateKey => "private key missing in record"@,
        KeyringError::MissingPublicKey => "public key missing in record"@,
        KeyringError::UnsupportedKeyType(kind) => "unsupported key type: "@ + kind@,
        KeyringError::DecryptionFailed(cause) => "decryption failed: "@ + cause@,
        KeyringError::ProtobufError(cause) => "invalid protobuf: "@ + cause@,
        KeyringError::AddressError(cause) => "address derivation failed: "@ + cause@,
        KeyringError::HomeDirNotFound => "home directory not found"@,
        KeyringError::IoError(cause) => "IO error: "@ + cause@,
    }
}

impl KeyringError {
    /// The error as a line of text.
    pub fn message(&self) -> (text: String)
        ensures
            text@ == keyring_error_text(*self),
    {
        match self {
            KeyringError::DirectoryNotFound(path) => String::from_str(
                "keyring directory not found: ",
            ).concat(path.as_str()),
            KeyringError::KeyNotFound(name) => String::from_str("key not found: ").concat(
                name.as_str(),
            ),
            KeyringError::AddressNotFound(address) => String::from_str(
                "address not found: ",
            ).concat(address.as_str()),
            KeyringError::NoKeysFound => String::from_str("no keys in keyring"),
            KeyringError::NotLocalKey(name) => String::from_str("key '").concat(
                name.as_str(),
            ).concat("' is not a local key (ledger/multi/offline)"),
            KeyringError::MissingPrivateKey => String::from_str("private key missing in record"),
            KeyringError::MissingPublicKey => String::from_str("public key missing in record"),
            KeyringError::UnsupportedKeyType(kind) => String::from_str(
                "unsupported key type: ",
            ).concat(kind.as_str()),
            KeyringError::DecryptionFailed(cause) => String::from_str(
                "decryption failed: ",
            ).concat(cause.as_str()),
            KeyringError::ProtobufError(cause) => String::from_str("invalid protobuf: ").concat(
                cause.as_str(),
            ),
            KeyringError::AddressError(cause) => String::from_str(
                "address derivation failed: ",
            ).concat(cause.as_str()),
            KeyringError::HomeDirNotFound => String::from_str("home directory not found"),
            KeyringError::IoError(cause) => String::from_str("IO error: ").concat(cause.as_str()),
        }
    }
}

} // verus!

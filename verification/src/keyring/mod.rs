//! Read-only access to the keys of a Cosmos SDK keyring.
//!
//! A keyring is a directory with one encrypted file for each key. The
//! caller reads the files and decodes the messages; what is decided about
//! them is decided here.

pub mod address;
pub mod decrypt;
pub mod error;
pub mod paths;
pub mod proto;

pub use error::KeyringError;

use crate::encoding::hex_encode;
use crate::encoding::hex_encoded;
use crate::keyring::address::address_of;
use crate::keyring::address::derive_address;
use crate::keyring::decrypt::decrypt_jwe;
use crate::keyring::decrypt::decrypted;
use crate::keyring::paths::bytes_le;
use crate::keyring::paths::expand_tilde;
use crate::keyring::paths::expand_tilde_in;
use crate::keyring::paths::expanded;
use crate::keyring::paths::info_stems;
use crate::keyring::paths::is_expansion;
use crate::keyring::paths::join_path;
use crate::keyring::paths::joined;
use crate::keyring::paths::lemma_bytes_le_reflexive;
use crate::keyring::paths::key_file_name;
use crate::keyring::paths::key_names;
use crate::keyring::paths::names_of;
use crate::keyring::paths::names_sorted;
use crate::keyring::paths::starts_at_home;
use crate::keyring::proto::Record;
use crate::keyring::proto::Secp256k1PrivKey;
use crate::keyring::proto::Secp256k1PubKey;
use crate::text::contains;
use crate::text::occurs_in;
use base64::Engine;
use vstd::prelude::*;
use vstd::seq_lib::to_multiset_contains;
use vstd::seq_lib::to_multiset_len;
use vstd::string::StringExecFns;
use vstd::utf8::encode_utf8;

verus! {

/// How a keyring protects its keys.
#[derive(Debug, Clone, Copy)]
pub enum Backend {
    /// The test backend: every key file is encrypted with the same fixed
    /// password.
    Test,
}

/// What a keyring tells of a key without its private part.
#[derive(Debug, Clone)]
pub struct KeyRecord {
    pub name: String,
    pub address: String,
    pub public_key: Vec<u8>,
}

/// A key with its private part.
#[derive(Debug, Clone)]
pub struct LocalKey {
    pub record: KeyRecord,
    pub private_key: Vec<u8>,
}

/// What standard Base64 text decodes to, or the text of the error.
pub uninterp spec fn base64_decoded(text: Seq<char>) -> Result<Seq<u8>, Seq<char>>;

/// Decodes standard Base64 with `base64::prelude::BASE64_STANDARD.decode`.
/// The outcome, the bytes or the text of the error, depends on the text
/// alone.
#[verifier::external_body]
fn base64_decode(text: &str) -> (r: Result<Vec<u8>, String>)
    ensures
        match r {
            Ok(bytes) => base64_decoded(text@) == Ok::<Seq<u8>, Seq<char>>(bytes@),
            Err(cause) => base64_decoded(text@) == Err::<Seq<u8>, Seq<char>>(cause@),
        },
{
    match base64::prelude::BASE64_STANDARD.decode(text) {
        Ok(bytes) => Ok(bytes),
        Err(e) => Err(e.to_string()),
    }
}

/// The error for a decrypted key file that is not the expected JSON.
pub fn invalid_json_wrapper(cause: &str) -> (e: KeyringError)
    ensures
        e matches KeyringError::ProtobufError(text) && text@ == "invalid JSON wrapper: "@ + cause@,
{
    KeyringError::ProtobufError(String::from_str("invalid JSON wrapper: ").concat(cause))
}

/// The error for bytes that are not the expected message.
pub fn invalid_protobuf(cause: &str) -> (e: KeyringError)
    ensures
        e matches KeyringError::ProtobufError(text) && text@ == cause@,
{
    KeyringError::ProtobufError(String::from_str(cause))
}

/// Turns the outcome of decoding a key file's data into the keyring's own
/// terms.
pub fn record_bytes_result(outcome: Result<Vec<u8>, String>) -> (r: Result<Vec<u8>, KeyringError>)
    ensures
        match outcome {
            Ok(bytes) => r matches Ok(b) && b@ == bytes@,
            Err(cause) => r matches Err(KeyringError::ProtobufError(text)) && text@
                == "invalid base64: "@ + cause@,
        },
{
    match outcome {
        Ok(bytes) => Ok(bytes),
        Err(cause) => Err(
            KeyringError::ProtobufError(
                String::from_str("invalid base64: ").concat(cause.as_str()),
            ),
        ),
    }
}

/// The bytes of the record that a key file holds: its data, which is
/// standard Base64, decoded.
pub fn record_bytes(data: &str) -> (r: Result<Vec<u8>, KeyringError>)
    ensures
        match base64_decoded(data@) {
            Ok(bytes) => r matches Ok(b) && b@ == bytes,
            Err(cause) => r matches Err(KeyringError::ProtobufError(text)) && text@
                == "invalid base64: "@ + cause,
        },
{
    record_bytes_result(base64_decode(data))
}

/// The bytes of the record's public key, to be decoded next.
pub fn public_key_bytes<'a>(record: &'a Record) -> (r: Result<&'a Vec<u8>, KeyringError>)
    ensures
        match record.pub_key {
            Some(any) => r matches Ok(bytes) && *bytes == any.value,
            None => r matches Err(KeyringError::MissingPublicKey),
        },
{
    match &record.pub_key {
        Some(any) => Ok(&any.value),
        None => Err(KeyringError::MissingPublicKey),
    }
}

/// The bytes of the private key of the record of the key called `name`, to
/// be decoded next. The key must be stored locally, the record must hold
/// its private part, and its type must name secp256k1.
pub fn private_key_bytes<'a>(name: &str, record: &'a Record) -> (r: Result<
    &'a Vec<u8>,
    KeyringError,
>)
    ensures
        match record.local {
            None => r matches Err(KeyringError::NotLocalKey(text)) && text@ == name@,
            Some(local) => match local.priv_key {
                None => r matches Err(KeyringError::MissingPrivateKey),
                Some(any) => if occurs_in(any.type_url@, "secp256k1"@) {
                    r matches Ok(bytes) && *bytes == any.value
                } else {
                    r matches Err(KeyringError::UnsupportedKeyType(text)) && text@
                        == any.type_url@
                },
            },
        },
{
    match &record.local {
        None => Err(KeyringError::NotLocalKey(String::from_str(name))),
        Some(local) => match &local.priv_key {
            None => Err(KeyringError::MissingPrivateKey),
            Some(any) => {
                if contains(any.type_url.as_str(), "secp256k1") {
                    Ok(&any.value)
                } else {
                    Err(KeyringError::UnsupportedKeyType(any.type_url.clone()))
                }
            },
        },
    }
}

impl LocalKey {
    /// The private key in lower-case hexadecimal.
    pub fn private_key_hex(&self) -> (text: String)
        ensures
            text@ == hex_encoded(self.private_key@),
    {
        hex_encode(&self.private_key)
    }

    /// Puts a key together from the name in its record and its two decoded
    /// parts, with the address that its public part gives under the prefix
    /// `celestia`.
    pub fn assemble(name: String, pub_key: Secp256k1PubKey, priv_key: Secp256k1PrivKey) -> (r:
        Result<LocalKey, KeyringError>)
        ensures
            match address_of(pub_key.key@, "celestia"@) {
                Ok(address) => r matches Ok(key) && key.record.name@ == name@
                    && key.record.address@ == address && key.record.public_key@ == pub_key.key@
                    && key.private_key@ == priv_key.key@,
                Err(cause) => r matches Err(KeyringError::AddressError(text)) && text@ == cause,
            },
    {
        match derive_address(pub_key.key.as_slice(), "celestia") {
            Err(e) => Err(e),
            Ok(address) => Ok(
                LocalKey {
                    record: KeyRecord { name, address, public_key: pub_key.key },
                    private_key: priv_key.key,
                },
            ),
        }
    }
}

/// Whether `name` is one of `names` and comes before all of them, compared
/// by their bytes in UTF-8.
pub open spec fn is_least_of(name: Seq<char>, names: Seq<Seq<char>>) -> bool {
    &&& names.contains(name)
    &&& forall|i: int|
        0 <= i < names.len() ==> bytes_le(encode_utf8(name), encode_utf8(#[trigger] names[i]))
}

/// Whether `r` is what reading the key called `name` gives, for its decoded
/// record and the outcomes of decoding its two parts: the bytes of the key,
/// or the text of the error.
pub open spec fn is_local_key_of(
    r: Result<LocalKey, KeyringError>,
    name: Seq<char>,
    record: Record,
    pub_key: Result<Seq<u8>, Seq<char>>,
    priv_key: Result<Seq<u8>, Seq<char>>,
) -> bool {
    if record.pub_key is None {
        r matches Err(KeyringError::MissingPublicKey)
    } else if pub_key is Err {
        r matches Err(KeyringError::ProtobufError(text)) && text@ == pub_key->Err_0
    } else if record.local is None {
        r matches Err(KeyringError::NotLocalKey(text)) && text@ == name
    } else if record.local->0.priv_key is None {
        r matches Err(KeyringError::MissingPrivateKey)
    } else if !occurs_in(record.local->0.priv_key->0.type_url@, "secp256k1"@) {
        r matches Err(KeyringError::UnsupportedKeyType(text)) && text@
            == record.local->0.priv_key->0.type_url@
    } else if priv_key is Err {
        r matches Err(KeyringError::ProtobufError(text)) && text@ == priv_key->Err_0
    } else {
        match address_of(pub_key->Ok_0, "celestia"@) {
            Ok(address) => r matches Ok(key) && key.record.name@ == record.name@
                && key.record.address@ == address && key.record.public_key@ == pub_key->Ok_0
                && key.private_key@ == priv_key->Ok_0,
            Err(cause) => r matches Err(KeyringError::AddressError(text)) && text@ == cause,
        }
    }
}

/// A keyring in a directory of key files.
#[derive(Debug)]
pub struct FileKeyring {
    dir: String,
    backend: Backend,
    password: String,
}

/// The name of the directory, below the base directory, in which a keyring
/// of this backend keeps its files.
pub open spec fn subdir_of(backend: Backend) -> Seq<char> {
    match backend {
        Backend::Test => "keyring-test"@,
    }
}

/// The password with which a keyring of this backend encrypts its files.
pub open spec fn password_of(backend: Backend) -> Seq<char> {
    match backend {
        Backend::Test => "test"@,
    }
}

impl FileKeyring {
    /// The directory that holds the key files.
    pub closed spec fn dir_text(&self) -> Seq<char> {
        self.dir@
    }

    /// The password of the key files.
    pub closed spec fn password_text(&self) -> Seq<char> {
        self.password@
    }

    /// The backend.
    pub closed spec fn backend_kind(&self) -> Backend {
        self.backend
    }

    /// The keyring of this backend below the base directory `base_dir`, in
    /// which a leading `~` has been replaced already.
    pub fn at(base_dir: &str, backend: Backend) -> (keyring: Self)
        ensures
            keyring.dir_text() == joined(base_dir@, subdir_of(backend)),
            keyring.password_text() == password_of(backend),
            keyring.backend_kind() == backend,
    {
        let subdir = match backend {
            Backend::Test => "keyring-test",
        };
        let password = match backend {
            Backend::Test => String::from_str("test"),
        };
        FileKeyring { dir: join_path(base_dir, subdir), backend, password }
    }

    /// The keyring of this backend below `base_dir`, where the home directory
    /// is `home` if it is known. Nothing on disk is touched: whether the
    /// directory exists is for [`FileKeyring::found`] to settle.
    pub fn open_in(base_dir: &str, home: Option<String>, backend: Backend) -> (r: Result<
        Self,
        KeyringError,
    >)
        ensures
            match expanded(
                base_dir@,
                match home {
                    Some(h) => Some(h@),
                    None => None,
                },
            ) {
                Some(base) => r matches Ok(keyring) && keyring.dir_text() == joined(
                    base,
                    subdir_of(backend),
                ) && keyring.password_text() == password_of(backend) && keyring.backend_kind()
                    == backend,
                None => r matches Err(KeyringError::HomeDirNotFound),
            },
    {
        match expand_tilde_in(base_dir, home) {
            Err(e) => Err(e),
            Ok(base) => Ok(FileKeyring::at(base.as_str(), backend)),
        }
    }

    /// The keyring of this backend below `base_dir`, in which a leading `~`
    /// stands for the user's home directory. Nothing on disk is touched:
    /// whether the directory exists is for [`FileKeyring::found`] to settle.
    pub fn open(base_dir: &str, backend: Backend) -> (r: Result<Self, KeyringError>)
        ensures
            !starts_at_home(base_dir@) ==> (r matches Ok(keyring) && keyring.dir_text() == joined(
                base_dir@,
                subdir_of(backend),
            )),
            starts_at_home(base_dir@) ==> (r matches Err(KeyringError::HomeDirNotFound)) || (
            r matches Ok(keyring) && exists|base: Seq<char>, home: Seq<char>|
                #[trigger] is_expansion(base, base_dir@, home) && keyring.dir_text() == joined(
                    base,
                    subdir_of(backend),
                )),
            r matches Ok(keyring) ==> keyring.password_text() == password_of(backend)
                && keyring.backend_kind() == backend,
    {
        match expand_tilde(base_dir) {
            Err(e) => Err(e),
            Ok(base) => Ok(FileKeyring::at(base.as_str(), backend)),
        }
    }

    /// The keyring of this backend at the default place, `~/.celestia-app`.
    pub fn open_default(backend: Backend) -> (r: Result<Self, KeyringError>)
        ensures
            (r matches Err(KeyringError::HomeDirNotFound)) || (r matches Ok(keyring) && exists|
                base: Seq<char>,
                home: Seq<char>,
            |
                #[trigger] is_expansion(base, "~/.celestia-app"@, home) && keyring.dir_text()
                    == joined(base, subdir_of(backend))),
            r matches Ok(keyring) ==> keyring.password_text() == password_of(backend)
                && keyring.backend_kind() == backend,
    {
        proof {
            reveal_strlit("~/.celestia-app");
            reveal_strlit("~/");
            assert("~/"@.is_prefix_of("~/.celestia-app"@));
        }
        FileKeyring::open("~/.celestia-app", backend)
    }

    /// The keyring, given whether its directory was found on disk.
    pub fn found(self, exists: bool) -> (r: Result<Self, KeyringError>)
        ensures
            exists ==> r == Ok::<Self, KeyringError>(self),
            !exists ==> (r matches Err(KeyringError::DirectoryNotFound(dir)) && dir@
                == self.dir_text()),
    {
        if exists {
            Ok(self)
        } else {
            Err(KeyringError::DirectoryNotFound(self.dir))
        }
    }

    /// The backend.
    pub fn backend(&self) -> (backend: Backend)
        ensures
            backend == self.backend_kind(),
    {
        self.backend
    }

    /// The directory that holds the key files.
    pub fn dir(&self) -> (dir: &String)
        ensures
            dir@ == self.dir_text(),
    {
        &self.dir
    }

    /// The password of the key files.
    pub fn password(&self) -> (password: &String)
        ensures
            password@ == self.password_text(),
    {
        &self.password
    }

    /// The path of the file that holds the key called `name`.
    pub fn info_path(&self, name: &str) -> (path: String)
        ensures
            path@ == joined(self.dir_text(), name@ + ".info"@),
    {
        let file_name = key_file_name(name);
        join_path(self.dir.as_str(), file_name.as_str())
    }

    /// The names of the keys, sorted, given the names of the files in the
    /// keyring's directory.
    pub fn list(&self, file_names: &Vec<String>) -> (names: Vec<String>)
        ensures
            names_of(names@).to_multiset() == info_stems(names_of(file_names@)).to_multiset(),
            names_sorted(names_of(names@)),
    {
        key_names(file_names)
    }

    /// The name of the first key, given the names of the files in the
    /// keyring's directory: the one among the keys' names that comes before
    /// all others.
    pub fn first_key(&self, file_names: &Vec<String>) -> (r: Result<String, KeyringError>)
        ensures
            info_stems(names_of(file_names@)).len() == 0 <==> r matches Err(
                KeyringError::NoKeysFound,
            ),
            info_stems(names_of(file_names@)).len() > 0 <==> r is Ok,
            r matches Ok(name) ==> is_least_of(name@, info_stems(names_of(file_names@))),
    {
        let mut names = key_names(file_names);
        let ghost sorted = names_of(names@);
        let ghost stems = info_stems(names_of(file_names@));
        proof {
            to_multiset_len(sorted);
            to_multiset_len(stems);
        }
        if names.len() == 0 {
            Err(KeyringError::NoKeysFound)
        } else {
            proof {
                let first = sorted[0];
                assert(sorted.contains(first));
                to_multiset_contains(sorted, first);
                to_multiset_contains(stems, first);
                assert forall|i: int| 0 <= i < stems.len() implies bytes_le(
                    encode_utf8(first),
                    encode_utf8(#[trigger] stems[i]),
                ) by {
                    assert(stems.contains(stems[i]));
                    to_multiset_contains(stems, stems[i]);
                    to_multiset_contains(sorted, stems[i]);
                    let j = choose|j: int| 0 <= j < sorted.len() && sorted[j] == stems[i];
                    if j == 0 {
                        lemma_bytes_le_reflexive(encode_utf8(first));
                    }
                }
            }
            Ok(names.swap_remove(0))
        }
    }

    /// The decrypted content of the file of the key called `name`, given what
    /// reading that file gave: the file's text, or nothing where it is
    /// missing or cannot be read. A file that was not read gives
    /// `KeyNotFound` with the name, and nothing is decrypted; one that was
    /// read is decrypted with the keyring's password.
    pub fn key_file_payload(&self, name: &str, file: Option<String>) -> (r: Result<
        Vec<u8>,
        KeyringError,
    >)
        ensures
            match file {
                None => r matches Err(KeyringError::KeyNotFound(text)) && text@ == name@,
                Some(jwe) => match decrypted(jwe@, self.password_text()) {
                    Ok(payload) => r matches Ok(p) && p@ == payload,
                    Err(cause) => r matches Err(KeyringError::DecryptionFailed(text)) && text@
                        == cause,
                },
            },
    {
        match file {
            None => Err(FileKeyring::key_not_found(name)),
            Some(jwe) => decrypt_jwe(jwe.as_str(), self.password.as_str()),
        }
    }

    /// The key called `name`, given its decoded record and the outcomes of
    /// decoding the bytes of its public and of its private part (each is
    /// looked at only where the record holds that part). The first of these
    /// that fails gives the error: the record holds a public key; it was
    /// decoded; the key is stored locally; the record holds its private
    /// part; the type of that part names secp256k1; it was decoded; the
    /// public key gives an address.
    pub fn local_key(
        &self,
        name: &str,
        record: Record,
        pub_key: Result<Secp256k1PubKey, String>,
        priv_key: Result<Secp256k1PrivKey, String>,
    ) -> (r: Result<LocalKey, KeyringError>)
        ensures
            is_local_key_of(
                r,
                name@,
                record,
                match pub_key {
                    Ok(key) => Ok(key.key@),
                    Err(cause) => Err(cause@),
                },
                match priv_key {
                    Ok(key) => Ok(key.key@),
                    Err(cause) => Err(cause@),
                },
            ),
    {
        match public_key_bytes(&record) {
            Err(e) => {
                return Err(e);
            },
            Ok(_) => {},
        }
        let pub_key = match pub_key {
            Ok(key) => key,
            Err(cause) => {
                return Err(KeyringError::ProtobufError(cause));
            },
        };
        match private_key_bytes(name, &record) {
            Err(e) => {
                return Err(e);
            },
            Ok(_) => {},
        }
        let priv_key = match priv_key {
            Ok(key) => key,
            Err(cause) => {
                return Err(KeyringError::ProtobufError(cause));
            },
        };
        LocalKey::assemble(record.name, pub_key, priv_key)
    }

    /// The error for a key whose file could not be read.
    pub fn key_not_found(name: &str) -> (e: KeyringError)
        ensures
            e matches KeyringError::KeyNotFound(text) && text@ == name@,
    {
        KeyringError::KeyNotFound(String::from_str(name))
    }

    /// The public part of a key.
    pub fn key(local: LocalKey) -> (record: KeyRecord)
        ensures
            record == local.record,
    {
        local.record
    }
}

} // verus!

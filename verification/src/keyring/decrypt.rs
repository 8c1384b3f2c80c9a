//! Decryption of the key files of a keyring.
//!
//! A key file is a JWE in compact form: five parts with dots between them,
//! the key wrapped with a key derived from the password.

use crate::keyring::error::KeyringError;
use crate::text::find_char;
use crate::text::first_place;
use crate::text::same_text;
use base64::Engine;
use josekit::jwe::PBES2_HS256_A128KW;
use vstd::prelude::*;
use vstd::string::StrSliceExecFns;
use vstd::string::StringExecFns;

verus! {

/// The number of dots in `text`.
pub open spec fn dot_count(text: Seq<char>) -> nat
    decreases text.len(),
{
    if text.len() == 0 {
        0
    } else {
        dot_count(text.drop_last()) + if text.last() == '.' {
            1nat
        } else {
            0nat
        }
    }
}

/// Whether `text` is made of five parts with dots between them.
pub open spec fn has_five_parts(text: Seq<char>) -> bool {
    dot_count(text) == 4
}

/// Whether `jwe_compact` is made of five parts with dots between them.
pub fn check_five_parts(jwe_compact: &str) -> (ok: bool)
    ensures
        ok == has_five_parts(jwe_compact@),
{
    let len = jwe_compact.unicode_len();
    let mut dots: usize = 0;
    let mut i: usize = 0;
    assert(jwe_compact@.take(0) =~= Seq::empty());
    while i < len
        invariant
            len == jwe_compact@.len(),
            i <= len,
            dots == dot_count(jwe_compact@.take(i as int)),
            dots <= i,
        decreases len - i,
    {
        assert(jwe_compact@.take(i + 1).drop_last() =~= jwe_compact@.take(i as int));
        if jwe_compact.get_char(i) == '.' {
            dots = dots + 1;
        }
        i = i + 1;
    }
    assert(jwe_compact@.take(len as int) =~= jwe_compact@);
    dots == 4
}

/// The part of `text` that begins at `from` and has `index` parts before it,
/// where dots stand between the parts; nothing where there are not that many
/// parts.
pub open spec fn nth_part(text: Seq<char>, from: int, index: nat) -> Seq<char>
    decreases index,
{
    match first_place(text, '.', from) {
        None => if index == 0 {
            text.skip(from)
        } else {
            Seq::empty()
        },
        Some(dot) => if index == 0 {
            text.subrange(from, dot)
        } else {
            nth_part(text, dot + 1, (index - 1) as nat)
        },
    }
}

/// The part of `text` with `index` parts before it.
pub fn part_of<'a>(text: &'a str, index: usize) -> (part: &'a str)
    ensures
        part@ == nth_part(text@, 0, index as nat),
{
    let len = text.unicode_len();
    let mut from: usize = 0;
    let mut left: usize = index;
    loop
        invariant
            len == text@.len(),
            from <= len,
            nth_part(text@, 0, index as nat) == nth_part(text@, from as int, left as nat),
        decreases left,
    {
        match find_char(text, '.', from) {
            None => {
                if left == 0 {
                    let part = text.substring_char(from, len);
                    assert(part@ =~= text@.skip(from as int));
                    return part;
                } else {
                    let part = text.substring_char(from, from);
                    assert(part@ =~= Seq::<char>::empty());
                    return part;
                }
            },
            Some(dot) => {
                if left == 0 {
                    return text.substring_char(from, dot);
                }
                from = dot + 1;
                left = left - 1;
            },
        }
    }
}

/// The `enc` claim of a JWE's protected header, where the header is
/// Base64 of a JSON object that holds one as a string.
pub uninterp spec fn header_enc_claim(header: Seq<char>) -> Option<Seq<char>>;

/// Reads the `enc` claim of a protected header as `josekit` reads it: the
/// header is decoded with `base64::engine::general_purpose::URL_SAFE_NO_PAD`,
/// parsed with `serde_json::from_slice` into a `serde_json::Map`, and the
/// claim is the string under `enc`, if there is one. The outcome depends on
/// the header alone.
#[verifier::external_body]
fn jwe_enc_claim(header: &str) -> (claim: Option<String>)
    ensures
        match claim {
            Some(enc) => header_enc_claim(header@) == Some(enc@),
            None => header_enc_claim(header@) is None,
        },
{
    let bytes = base64::engine::general_purpose::URL_SAFE_NO_PAD.decode(header).ok()?;
    let claims: serde_json::Map<String, serde_json::Value> = serde_json::from_slice(&bytes).ok()?;
    match claims.get("enc") {
        Some(serde_json::Value::String(enc)) => Some(enc.clone()),
        _ => None,
    }
}

/// Whether the claim names one of the AES-GCM content encryptions.
pub open spec fn names_gcm(claim: Option<Seq<char>>) -> bool {
    claim == Some("A128GCM"@) || claim == Some("A192GCM"@) || claim == Some("A256GCM"@)
}

/// Whether the claim names one of the AES-GCM content encryptions.
pub fn is_gcm_claim(claim: &Option<String>) -> (gcm: bool)
    ensures
        gcm == names_gcm(
            match claim {
                Some(enc) => Some(enc@),
                None => None,
            },
        ),
{
    match claim {
        Some(enc) => same_text(enc.as_str(), "A128GCM") || same_text(enc.as_str(), "A192GCM")
            || same_text(enc.as_str(), "A256GCM"),
        None => false,
    }
}

/// The most characters of a key file and of a password: the ciphers take
/// lengths as 32-bit numbers, and a character may be four bytes.
pub const MAX_TEXT_CHARS: usize = 0x1FFF_FFFF;

/// The fewest characters of a wrapped key: Base64 of the eight bytes that
/// wrapping adds to a key.
pub const MIN_WRAPPED_KEY_CHARS: usize = 11;

/// The fewest characters of an initialization vector that every content
/// encryption can take: Base64 of sixteen bytes.
pub const FULL_IV_CHARS: usize = 22;

/// Why a key file whose header has the `enc` claim `enc_claim` cannot be
/// handed on for decryption, if it cannot: it is too long; it is not made of
/// five parts; its second part, the wrapped key, is there but too short to
/// be one; its third part, the initialization vector, is missing; or that
/// part is shorter than a full one while the claim does not name an AES-GCM
/// content encryption, which alone takes shorter ones.
pub open spec fn format_fault_with(jwe_compact: Seq<char>, enc_claim: Option<Seq<char>>) -> Option<
    Seq<char>,
> {
    let wrapped_key = nth_part(jwe_compact, 0, 1);
    let iv = nth_part(jwe_compact, 0, 2);
    if jwe_compact.len() > MAX_TEXT_CHARS {
        Some("invalid JWE format: too long"@)
    } else if !has_five_parts(jwe_compact) {
        Some("invalid JWE format: expected 5 parts"@)
    } else if 0 < wrapped_key.len() < MIN_WRAPPED_KEY_CHARS {
        Some("invalid JWE format: wrapped key too short"@)
    } else if iv.len() == 0 {
        Some("invalid JWE format: initialization vector missing"@)
    } else if iv.len() < FULL_IV_CHARS && !names_gcm(enc_claim) {
        Some("invalid JWE format: initialization vector too short"@)
    } else {
        None
    }
}

/// Why a key file cannot be handed on for decryption, if it cannot.
pub open spec fn format_fault(jwe_compact: Seq<char>) -> Option<Seq<char>> {
    format_fault_with(jwe_compact, header_enc_claim(nth_part(jwe_compact, 0, 0)))
}

/// What decrypting a compact JWE with a password gives: the payload, or the
/// text of the error.
pub uninterp spec fn jwe_payload(jwe_compact: Seq<char>, password: Seq<char>) -> Result<
    Seq<u8>,
    Seq<char>,
>;

/// Decrypts a compact JWE whose key is wrapped with PBES2-HS256+A128KW:
/// makes the decrypter for the password with
/// `PBES2_HS256_A128KW.decrypter_from_bytes` and hands it to
/// `josekit::jwe::deserialize_compact`. The outcome, the payload or the text
/// of either call's error, depends on the JWE and the password alone.
///
/// A JWE with a fault in its format is left out, and so is a password that
/// is too long. `josekit` sizes the buffer of the unwrapped key as the
/// wrapped key's length less eight, and the cipher asserts that an
/// initialization vector is there and, for AES-CBC, that it has sixteen
/// bytes: on a wrapped key of one to seven bytes, on no vector or on a short
/// one for AES-CBC these calls panic. So they do on a length that is no
/// 32-bit number.
#[verifier::external_body]
fn jwe_decrypt(jwe_compact: &str, password: &str) -> (r: Result<Vec<u8>, String>)
    requires
        format_fault(jwe_compact@) is None,
        password@.len() <= MAX_TEXT_CHARS,
    ensures
        match r {
            Ok(payload) => jwe_payload(jwe_compact@, password@) == Ok::<Seq<u8>, Seq<char>>(
                payload@,
            ),
            Err(cause) => jwe_payload(jwe_compact@, password@) == Err::<Seq<u8>, Seq<char>>(
                cause@,
            ),
        },
{
    match PBES2_HS256_A128KW.decrypter_from_bytes(password.as_bytes()) {
        Ok(decrypter) => match josekit::jwe::deserialize_compact(jwe_compact, &decrypter) {
            Ok((payload, _header)) => Ok(payload),
            Err(e) => Err(e.to_string()),
        },
        Err(e) => Err(e.to_string()),
    }
}

/// What decrypting a key file gives: a file with a fault in its format is
/// refused, and so is a password that is too long; any other file is
/// decrypted.
pub open spec fn decrypted(jwe_compact: Seq<char>, password: Seq<char>) -> Result<
    Seq<u8>,
    Seq<char>,
> {
    match format_fault(jwe_compact) {
        Some(fault) => Err(fault),
        None => if password.len() > MAX_TEXT_CHARS {
            Err("password too long"@)
        } else {
            jwe_payload(jwe_compact, password)
        },
    }
}

/// Looks for a fault in the format of a key file, given the `enc` claim of
/// its header.
pub fn find_format_fault(jwe_compact: &str, enc_claim: &Option<String>) -> (fault: Option<String>)
    ensures
        match format_fault_with(
            jwe_compact@,
            match enc_claim {
                Some(enc) => Some(enc@),
                None => None,
            },
        ) {
            Some(text) => fault matches Some(f) && f@ == text,
            None => fault is None,
        },
{
    if jwe_compact.unicode_len() > MAX_TEXT_CHARS {
        return Some(String::from_str("invalid JWE format: too long"));
    }
    if !check_five_parts(jwe_compact) {
        return Some(String::from_str("invalid JWE format: expected 5 parts"));
    }
    let wrapped_key_len = part_of(jwe_compact, 1).unicode_len();
    if 0 < wrapped_key_len && wrapped_key_len < MIN_WRAPPED_KEY_CHARS {
        return Some(String::from_str("invalid JWE format: wrapped key too short"));
    }
    let iv_len = part_of(jwe_compact, 2).unicode_len();
    if iv_len == 0 {
        return Some(String::from_str("invalid JWE format: initialization vector missing"));
    }
    if iv_len < FULL_IV_CHARS && !is_gcm_claim(enc_claim) {
        return Some(String::from_str("invalid JWE format: initialization vector too short"));
    }
    None
}

/// Turns the outcome of a decryption into the keyring's own terms.
pub fn decryption_result(outcome: Result<Vec<u8>, String>) -> (r: Result<Vec<u8>, KeyringError>)
    ensures
        match outcome {
            Ok(payload) => r matches Ok(p) && p@ == payload@,
            Err(cause) => r matches Err(KeyringError::DecryptionFailed(text)) && text@ == cause@,
        },
{
    match outcome {
        Ok(payload) => Ok(payload),
        Err(cause) => Err(KeyringError::DecryptionFailed(cause)),
    }
}

/// Decrypts a key file with the password.
pub fn decrypt_jwe(jwe_compact: &str, password: &str) -> (r: Result<Vec<u8>, KeyringError>)
    ensures
        match decrypted(jwe_compact@, password@) {
            Ok(payload) => r matches Ok(p) && p@ == payload,
            Err(cause) => r matches Err(KeyringError::DecryptionFailed(text)) && text@ == cause,
        },
{
    let enc_claim = jwe_enc_claim(part_of(jwe_compact, 0));
    match find_format_fault(jwe_compact, &enc_claim) {
        Some(fault) => Err(KeyringError::DecryptionFailed(fault)),
        None => {
            if password.unicode_len() > MAX_TEXT_CHARS {
                Err(KeyringError::DecryptionFailed(String::from_str("password too long")))
            } else {
                decryption_result(jwe_decrypt(jwe_compact, password))
            }
        },
    }
}

} // verus!

//! The monitor's configuration and its validation.

use crate::encoding::hex_decode;
use crate::encoding::hex_encoded;
use crate::encoding::is_hex_text;
use crate::keyring::error::keyring_error_text;
use crate::keyring::KeyringError;
use crate::keyring::LocalKey;
use crate::text::contains;
use crate::text::occurs_in;
use crate::text::strip_prefix;
use vstd::prelude::*;
use vstd::string::StrSliceExecFns;
use vstd::string::StringSliceAdditionalSpecFns;
use vstd::utf8::encode_utf8;
use vstd::string::StringExecFns;

verus! {

/// An error that stops the monitor.
#[derive(Debug)]
pub enum LatencyMonitorError {
    /// The smallest payload size is zero.
    InvalidMinBlobSize,
    /// The largest payload size is below the smallest.
    InvalidBlobSizeRange,
    /// No private key was given and none is to be had from a keyring.
    MissingPrivateKey,
    /// The private key is not a string of hexadecimal digits.
    InvalidPrivateKeyHex,
    /// The delay between submissions could not be parsed.
    InvalidSubmissionDelay(String),
    /// The client of the ledger could not be made.
    GrpcClientError(String),
    /// The namespace could not be made.
    NamespaceError(String),
    /// A payload could not be wrapped for submission.
    BlobError(String),
    /// The keyring failed.
    KeyringError(KeyringError),
    /// The results could not be laid out as delimited records.
    CsvError(String),
    /// Reading or writing failed.
    IoError(String),
}

/// The text of a [`LatencyMonitorError`].
pub open spec fn error_text(e: LatencyMonitorError) -> Seq<char> {
    match e {
        LatencyMonitorError::InvalidMinBlobSize => "minimum blob size must be at least 1 byte"@,
        LatencyMonitorError::InvalidBlobSizeRange =>
            "maximum blob size must be greater than or equal to minimum blob size"@,
        LatencyMonitorError::MissingPrivateKey =>
            "private key is required (use --private-key, CELESTIA_PRIVATE_KEY, or keyring)"@,
        LatencyMonitorError::InvalidPrivateKeyHex => "private key must be a valid hex string"@,
        LatencyMonitorError::InvalidSubmissionDelay(cause) =>
            "failed to parse submission delay: "@ + cause@,
        LatencyMonitorError::GrpcClientError(cause) => "failed to create gRPC client: "@ + cause@,
        LatencyMonitorError::NamespaceError(cause) => "failed to create namespace: "@ + cause@,
        LatencyMonitorError::BlobError(cause) => "failed to create blob: "@ + cause@,
        LatencyMonitorError::KeyringError(inner) => "keyring error: "@ + keyring_error_text(inner),
        LatencyMonitorError::CsvError(cause) => "CSV write error: "@ + cause@,
        LatencyMonitorError::IoError(cause) => "IO error: "@ + cause@,
    }
}

impl LatencyMonitorError {
    /// The error as a line of text.
    pub fn message(&self) -> (text: String)
        ensures
            text@ == error_text(*self),
    {
        match self {
            LatencyMonitorError::InvalidMinBlobSize => String::from_str(
                "minimum blob size must be at least 1 byte",
            ),
            LatencyMonitorError::InvalidBlobSizeRange => String::from_str(
                "maximum blob size must be greater than or equal to minimum blob size",
            ),
            LatencyMonitorError::MissingPrivateKey => String::from_str(
                "private key is required (use --private-key, CELESTIA_PRIVATE_KEY, or keyring)",
            ),
            LatencyMonitorError::InvalidPrivateKeyHex => String::from_str(
                "private key must be a valid hex string",
            ),
            LatencyMonitorError::InvalidSubmissionDelay(cause) => String::from_str(
                "failed to parse submission delay: ",
            ).concat(cause.as_str()),
            LatencyMonitorError::GrpcClientError(cause) => String::from_str(
                "failed to create gRPC client: ",
            ).concat(cause.as_str()),
            LatencyMonitorError::NamespaceError(cause) => String::from_str(
                "failed to create namespace: ",
            ).concat(cause.as_str()),
            LatencyMonitorError::BlobError(cause) => String::from_str(
                "failed to create blob: ",
            ).concat(cause.as_str()),
            LatencyMonitorError::KeyringError(inner) => {
                let text = inner.message();
                String::from_str("keyring error: ").concat(text.as_str())
            },
            LatencyMonitorError::CsvError(cause) => String::from_str("CSV write error: ").concat(
                cause.as_str(),
            ),
            LatencyMonitorError::IoError(cause) => String::from_str("IO error: ").concat(
                cause.as_str(),
            ),
        }
    }
}

/// Checks the bounds of the payload size: the smallest size is at least one
/// byte, and the largest is not below the smallest.
pub fn validate_blob_sizes(min: usize, max: usize) -> (r: Result<(), LatencyMonitorError>)
    ensures
        min < 1 <==> r == Err::<(), LatencyMonitorError>(LatencyMonitorError::InvalidMinBlobSize),
        min >= 1 && max < min <==> r == Err::<(), LatencyMonitorError>(
            LatencyMonitorError::InvalidBlobSizeRange,
        ),
        1 <= min <= max <==> r == Ok::<(), LatencyMonitorError>(()),
{
    if min < 1 {
        return Err(LatencyMonitorError::InvalidMinBlobSize);
    }
    if max < min {
        return Err(LatencyMonitorError::InvalidBlobSizeRange);
    }
    Ok(())
}

/// Checks that the private key is written in hexadecimal.
pub fn validate_private_key_hex(key: &str) -> (r: Result<(), LatencyMonitorError>)
    ensures
        is_hex_text(key@) <==> r is Ok,
        !is_hex_text(key@) <==> r matches Err(LatencyMonitorError::InvalidPrivateKeyHex),
{
    match hex_decode(key) {
        Some(_) => Ok(()),
        None => Err(LatencyMonitorError::InvalidPrivateKeyHex),
    }
}

/// The endpoint without its scheme, where it begins with one of `http://`,
/// `https://`, `ws://` and `wss://`.
pub open spec fn without_scheme(endpoint: Seq<char>) -> Seq<char> {
    if "http://"@.is_prefix_of(endpoint) {
        endpoint.skip("http://"@.len() as int)
    } else if "https://"@.is_prefix_of(endpoint) {
        endpoint.skip("https://"@.len() as int)
    } else if "ws://"@.is_prefix_of(endpoint) {
        endpoint.skip("ws://"@.len() as int)
    } else if "wss://"@.is_prefix_of(endpoint) {
        endpoint.skip("wss://"@.len() as int)
    } else {
        endpoint
    }
}

/// Takes the scheme off an endpoint.
pub fn strip_scheme<'a>(endpoint: &'a str) -> (rest: &'a str)
    ensures
        rest@ == without_scheme(endpoint@),
{
    if let Some(rest) = strip_prefix(endpoint, "http://") {
        return rest;
    }
    if let Some(rest) = strip_prefix(endpoint, "https://") {
        return rest;
    }
    if let Some(rest) = strip_prefix(endpoint, "ws://") {
        return rest;
    }
    if let Some(rest) = strip_prefix(endpoint, "wss://") {
        return rest;
    }
    endpoint
}

/// The URL under which the ledger is reached: with TLS asked for, `https://`
/// and the endpoint without its scheme; with TLS ruled out, `http://` and
/// the endpoint without its scheme; otherwise the endpoint as it is where it
/// names a scheme, and `http://` before it where it does not.
pub open spec fn grpc_url_of(endpoint: Seq<char>, use_tls: bool, use_no_tls: bool) -> Seq<char> {
    if use_tls {
        "https://"@ + without_scheme(endpoint)
    } else if use_no_tls {
        "http://"@ + without_scheme(endpoint)
    } else if occurs_in(endpoint, "://"@) {
        endpoint
    } else {
        "http://"@ + endpoint
    }
}

/// Builds the URL under which the ledger is reached.
pub fn build_grpc_url(endpoint: &str, use_tls: bool, use_no_tls: bool) -> (url: String)
    ensures
        url@ == grpc_url_of(endpoint@, use_tls, use_no_tls),
{
    let stripped = strip_scheme(endpoint);
    if use_tls {
        String::from_str("https://").concat(stripped)
    } else if use_no_tls {
        String::from_str("http://").concat(stripped)
    } else if contains(endpoint, "://") {
        String::from_str(endpoint)
    } else {
        String::from_str("http://").concat(endpoint)
    }
}

/// The number of bytes in a namespace's id.
pub const NAMESPACE_ID_LEN: usize = 10;

/// The id of the namespace called `name`: the first ten bytes of the name
/// in UTF-8, and zeros after them where the name is shorter.
pub open spec fn namespace_id_of(name: Seq<char>) -> Seq<u8> {
    let bytes = encode_utf8(name);
    Seq::new(
        NAMESPACE_ID_LEN as nat,
        |i: int|
            if i < bytes.len() {
                bytes[i]
            } else {
                0u8
            },
    )
}

/// Makes the id of the namespace called `namespace_str`.
pub fn create_namespace(namespace_str: &str) -> (id: Vec<u8>)
    ensures
        id@ == namespace_id_of(namespace_str@),
{
    let bytes = namespace_str.as_bytes_vec();
    let mut id: Vec<u8> = Vec::new();
    let mut i: usize = 0;
    while i < NAMESPACE_ID_LEN
        invariant
            i <= NAMESPACE_ID_LEN,
            bytes@ == namespace_str.spec_bytes(),
            id@.len() == i,
            forall|j: int| 0 <= j < i ==> id@[j] == namespace_id_of(namespace_str@)[j],
        decreases NAMESPACE_ID_LEN - i,
    {
        if i < bytes.len() {
            id.push(bytes[i]);
        } else {
            id.push(0);
        }
        i = i + 1;
    }
    assert(id@ =~= namespace_id_of(namespace_str@));
    id
}

/// What the operator asked for on the command line.
#[derive(Debug)]
pub struct Args {
    /// The gRPC endpoint of the ledger.
    pub grpc_endpoint: String,
    /// The RPC endpoint of the ledger.
    pub rpc_endpoint: String,
    /// The directory that holds the keyring.
    pub keyring_dir: Option<String>,
    /// The name of the account to take from the keyring.
    pub account: Option<String>,
    /// The private key in hexadecimal, in place of a keyring.
    pub private_key: Option<String>,
    /// The largest payload size in bytes.
    pub blob_size: usize,
    /// The smallest payload size in bytes.
    pub blob_size_min: usize,
    /// The name of the namespace to submit under.
    pub namespace: String,
    /// Whether to submit only, without tracking confirmations.
    pub disable_metrics: bool,
    /// The delay between submissions, as text.
    pub submission_delay: String,
    /// Whether to reach the ledger with TLS.
    pub tls: bool,
    /// Whether to reach the ledger without TLS.
    pub no_tls: bool,
    /// The port on which the metrics are served; zero to serve none.
    pub metrics_port: u16,
}

/// A configuration that passed every check.
#[derive(Debug)]
pub struct ValidatedConfig {
    pub grpc_url: String,
    pub rpc_url: String,
    pub private_key: String,
    pub account_name: String,
    pub account_address: String,
    pub blob_size_min: usize,
    pub blob_size_max: usize,
    /// The id of the namespace: ten bytes.
    pub namespace: Vec<u8>,
    /// The delay between submissions in nanoseconds.
    pub submission_delay: u128,
    pub disable_metrics: bool,
    pub metrics_port: u16,
}

/// The directory in which the keyring is looked for where none is given.
pub open spec fn default_keyring_dir() -> Seq<char> {
    "~/.celestia-app"@
}

/// Where the private key is to be looked for in a keyring: the keyring's
/// directory and the account's name, if one was asked for. Nothing where the
/// key was given directly.
pub fn keyring_location(args: &Args) -> (place: Option<(String, Option<String>)>)
    ensures
        args.private_key is Some <==> place is None,
        place matches Some((dir, account)) ==> {
            &&& dir@ == match args.keyring_dir {
                Some(d) => d@,
                None => default_keyring_dir(),
            }
            &&& account is Some == args.account is Some
            &&& account matches Some(a) ==> a@ == args.account->0@
        },
{
    if args.private_key.is_some() {
        return None;
    }
    let dir = match &args.keyring_dir {
        Some(d) => d.clone(),
        None => String::from_str("~/.celestia-app"),
    };
    let account = match &args.account {
        Some(a) => Some(a.clone()),
        None => None,
    };
    Some((dir, account))
}

/// The private key to sign with, in hexadecimal, with the name and the
/// address of its account: the key given directly, under the name `direct`
/// and with the address `unknown`, or else the key found in the keyring.
pub open spec fn chosen_key(args: Args, keyring_key: Option<LocalKey>) -> Option<
    (Seq<char>, Seq<char>, Seq<char>),
> {
    match args.private_key {
        Some(key) => Some((key@, "direct"@, "unknown"@)),
        None => match keyring_key {
            Some(key) => Some((hex_encoded(key.private_key@), key.record.name@, key.record.address@)),
            None => None,
        },
    }
}

/// Picks the private key: the one given directly, or else the one that was
/// found in the keyring, `keyring_key`. Returns the key in hexadecimal, the
/// account's name and its address.
pub fn extract_private_key(args: &Args, keyring_key: Option<LocalKey>) -> (r: Result<
    (String, String, String),
    LatencyMonitorError,
>)
    ensures
        match chosen_key(*args, keyring_key) {
            Some(chosen) => r matches Ok((key, name, address)) && key@ == chosen.0 && name@
                == chosen.1 && address@ == chosen.2,
            None => r matches Err(LatencyMonitorError::MissingPrivateKey),
        },
{
    if let Some(key) = &args.private_key {
        return Ok((key.clone(), String::from_str("direct"), String::from_str("unknown")));
    }
    match keyring_key {
        Some(local_key) => {
            let key = local_key.private_key_hex();
            Ok((key, local_key.record.name, local_key.record.address))
        },
        None => Err(LatencyMonitorError::MissingPrivateKey),
    }
}

/// The most digits that the exponent of a number in a delay may have.
pub const MAX_EXPONENT_DIGITS: usize = 4;

/// Whether `c` is one of the digits `0` to `9`.
pub open spec fn is_digit(c: char) -> bool {
    '0' <= c && c <= '9'
}

/// The number of digits that stand in `text` from the place `from` on, one
/// after the other.
pub open spec fn digit_run(text: Seq<char>, from: int) -> nat
    decreases text.len() - from,
{
    if 0 <= from < text.len() && is_digit(text[from]) {
        1 + digit_run(text, from + 1)
    } else {
        0
    }
}

/// The place at which the digits of an exponent begin whose `e` stands at
/// the place `at`: after the `e` and its sign, if it has one.
pub open spec fn exponent_digits_at(text: Seq<char>, at: int) -> int {
    if at + 1 < text.len() && (text[at + 1] == '+' || text[at + 1] == '-') {
        at + 2
    } else {
        at + 1
    }
}

/// Whether an exponent with more than [`MAX_EXPONENT_DIGITS`] digits stands
/// in `text` at the place `at`: an `e` of either case after a digit or a
/// point, then a sign or none, then the digits.
pub open spec fn large_exponent_at(text: Seq<char>, at: int) -> bool {
    &&& 1 <= at < text.len()
    &&& (text[at] == 'e' || text[at] == 'E')
    &&& (is_digit(text[at - 1]) || text[at - 1] == '.')
    &&& digit_run(text, exponent_digits_at(text, at)) > MAX_EXPONENT_DIGITS
}

/// Whether `text` holds a number with an exponent of more than
/// [`MAX_EXPONENT_DIGITS`] digits.
pub open spec fn has_large_exponent(text: Seq<char>) -> bool {
    exists|at: int| large_exponent_at(text, at)
}

/// Whether more than `limit` digits stand in `text` from the place `from`
/// on, one after the other.
pub fn digits_exceed(text: &str, from: usize, limit: usize) -> (more: bool)
    ensures
        more == (digit_run(text@, from as int) > limit),
{
    let len = text.unicode_len();
    let mut count: usize = 0;
    while count <= limit
        invariant
            len == text@.len(),
            count <= limit + 1,
            digit_run(text@, from as int) == count + digit_run(text@, from + count),
        decreases limit + 1 - count,
    {
        if count >= len || from >= len - count {
            return false;
        }
        let c = text.get_char(from + count);
        if !('0' <= c && c <= '9') {
            return false;
        }
        count = count + 1;
    }
    true
}

/// Whether `text` holds a number with an exponent of more than
/// [`MAX_EXPONENT_DIGITS`] digits.
pub fn mentions_large_exponent(text: &str) -> (found: bool)
    ensures
        found == has_large_exponent(text@),
{
    let len = text.unicode_len();
    let mut at: usize = 1;
    while at < len
        invariant
            len == text@.len(),
            1 <= at,
            forall|j: int| 0 <= j < at ==> !large_exponent_at(text@, j),
        decreases len - at,
    {
        let c = text.get_char(at);
        if c == 'e' || c == 'E' {
            let before = text.get_char(at - 1);
            if ('0' <= before && before <= '9') || before == '.' {
                let signed = at + 1 < len && (text.get_char(at + 1) == '+' || text.get_char(
                    at + 1,
                ) == '-');
                let digits: usize = if signed {
                    at + 2
                } else {
                    at + 1
                };
                if digits_exceed(text, digits, MAX_EXPONENT_DIGITS) {
                    assert(large_exponent_at(text@, at as int));
                    return true;
                }
            }
        }
        at = at + 1;
    }
    false
}

/// What `parse_duration::parse` makes of a text: the duration in nanoseconds,
/// or the text of its error.
pub uninterp spec fn parsed_duration(text: Seq<char>) -> Result<u128, Seq<char>>;

/// Parses a duration with `parse_duration::parse` and gives it in
/// nanoseconds, or the text of that function's error. The result depends on
/// the text alone. Texts with an exponent of more than
/// [`MAX_EXPONENT_DIGITS`] digits are left out: the function raises ten to
/// the exponent, which for a large one takes more time and memory than there
/// is. It reads an exponent only behind a number, and gives an error before
/// it raises anything where the number or the exponent holds a digit other
/// than `0` to `9`.
#[verifier::external_body]
fn parse_duration_text(text: &str) -> (r: Result<u128, String>)
    requires
        !has_large_exponent(text@),
    ensures
        match r {
            Ok(nanos) => parsed_duration(text@) == Ok::<u128, Seq<char>>(nanos),
            Err(cause) => parsed_duration(text@) == Err::<u128, Seq<char>>(cause@),
        },
{
    match parse_duration::parse(text) {
        Ok(duration) => Ok(duration.as_nanos()),
        Err(e) => Err(e.to_string()),
    }
}

/// The delay that `text` asks for, in nanoseconds, or why there is none: a
/// text with an exponent of more than [`MAX_EXPONENT_DIGITS`] digits is
/// refused, any other is parsed as a duration.
pub open spec fn submission_delay_of(text: Seq<char>) -> Result<u128, Seq<char>> {
    if has_large_exponent(text) {
        Err("exponent too large"@)
    } else {
        parsed_duration(text)
    }
}

/// Parses the delay between submissions.
pub fn parse_submission_delay(text: &str) -> (r: Result<u128, String>)
    ensures
        match r {
            Ok(nanos) => submission_delay_of(text@) == Ok::<u128, Seq<char>>(nanos),
            Err(cause) => submission_delay_of(text@) == Err::<u128, Seq<char>>(cause@),
        },
{
    if mentions_large_exponent(text) {
        Err(String::from_str("exponent too large"))
    } else {
        parse_duration_text(text)
    }
}

/// Whether `config` is what `args` ask for, with the private key `key` of the
/// account `name` at `address` and the delay `delay`.
pub open spec fn config_matches(
    config: ValidatedConfig,
    args: Args,
    key: (Seq<char>, Seq<char>, Seq<char>),
    delay: u128,
) -> bool {
    &&& config.grpc_url@ == grpc_url_of(args.grpc_endpoint@, args.tls, args.no_tls)
    &&& config.rpc_url@ == args.rpc_endpoint@
    &&& config.private_key@ == key.0
    &&& config.account_name@ == key.1
    &&& config.account_address@ == key.2
    &&& config.blob_size_min == args.blob_size_min
    &&& config.blob_size_max == args.blob_size
    &&& config.namespace@ == namespace_id_of(args.namespace@)
    &&& config.submission_delay == delay
    &&& config.disable_metrics == args.disable_metrics
    &&& config.metrics_port == args.metrics_port
}

/// Whether `r` is the outcome of validating `args` with the key found in the
/// keyring, if any, and the outcome `delay` of parsing the delay. The checks
/// are made in this order, and the first that fails gives the error: the
/// delay, the payload sizes, the presence of a private key, its being
/// hexadecimal.
pub open spec fn is_validation_of(
    r: Result<ValidatedConfig, LatencyMonitorError>,
    args: Args,
    keyring_key: Option<LocalKey>,
    delay: Result<u128, Seq<char>>,
) -> bool {
    match delay {
        Err(cause) => r matches Err(LatencyMonitorError::InvalidSubmissionDelay(text)) && text@
            == cause,
        Ok(nanos) => if args.blob_size_min < 1 {
            r matches Err(LatencyMonitorError::InvalidMinBlobSize)
        } else if args.blob_size < args.blob_size_min {
            r matches Err(LatencyMonitorError::InvalidBlobSizeRange)
        } else {
            match chosen_key(args, keyring_key) {
                None => r matches Err(LatencyMonitorError::MissingPrivateKey),
                Some(key) => if !is_hex_text(key.0) {
                    r matches Err(LatencyMonitorError::InvalidPrivateKeyHex)
                } else {
                    r matches Ok(config) && config_matches(config, args, key, nanos)
                },
            }
        },
    }
}

/// Validates `args`, given the key that was found in the keyring, if one
/// was looked for and found, and the outcome of parsing the delay.
pub fn validate_parsed(
    args: &Args,
    keyring_key: Option<LocalKey>,
    delay: Result<u128, String>,
) -> (r: Result<ValidatedConfig, LatencyMonitorError>)
    ensures
        is_validation_of(
            r,
            *args,
            keyring_key,
            match delay {
                Ok(nanos) => Ok(nanos),
                Err(cause) => Err(cause@),
            },
        ),
{
    let submission_delay = match delay {
        Ok(nanos) => nanos,
        Err(cause) => {
            return Err(LatencyMonitorError::InvalidSubmissionDelay(cause));
        },
    };
    match validate_blob_sizes(args.blob_size_min, args.blob_size) {
        Err(e) => {
            return Err(e);
        },
        Ok(_) => {},
    }
    let (private_key, account_name, account_address) = match extract_private_key(
        args,
        keyring_key,
    ) {
        Ok(found) => found,
        Err(e) => {
            return Err(e);
        },
    };
    match validate_private_key_hex(private_key.as_str()) {
        Err(e) => {
            return Err(e);
        },
        Ok(_) => {},
    }
    let grpc_url = build_grpc_url(args.grpc_endpoint.as_str(), args.tls, args.no_tls);
    let rpc_url = args.rpc_endpoint.clone();
    let namespace = create_namespace(args.namespace.as_str());
    Ok(
        ValidatedConfig {
            grpc_url,
            rpc_url,
            private_key,
            account_name,
            account_address,
            blob_size_min: args.blob_size_min,
            blob_size_max: args.blob_size,
            namespace,
            submission_delay,
            disable_metrics: args.disable_metrics,
            metrics_port: args.metrics_port,
        },
    )
}

/// Validates `args`, given the key that was found in the keyring, if one
/// was looked for and found.
pub fn validate_args(args: &Args, keyring_key: Option<LocalKey>) -> (r: Result<
    ValidatedConfig,
    LatencyMonitorError,
>)
    ensures
        is_validation_of(r, *args, keyring_key, submission_delay_of(args.submission_delay@)),
{
    let delay = parse_submission_delay(args.submission_delay.as_str());
    validate_parsed(args, keyring_key, delay)
}

} // verus!

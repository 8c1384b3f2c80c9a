//! The record of one submission attempt, and the random payloads that are
//! submitted.

use rand::Rng;
use vstd::prelude::*;

verus! {

/// Nanoseconds in one millisecond.
pub const NANOS_PER_MILLI: u64 = 1_000_000;

/// The outcome of one attempt to submit a transaction and see it confirmed.
///
/// Instants are nanoseconds since the Unix epoch and the latency is a span
/// in nanoseconds. An attempt that failed has no commit instant (it is zero),
/// a zero latency, no hash, code or height, and carries the error's text.
#[derive(Debug, Clone)]
pub struct TxResult {
    pub submit_time: u64,
    pub commit_time: u64,
    pub latency: u64,
    pub tx_hash: String,
    pub code: u32,
    pub height: i64,
    pub failed: bool,
    pub error_msg: String,
}

/// The mathematical value of a [`TxResult`].
pub struct TxResultView {
    pub submit_time: nat,
    pub commit_time: nat,
    pub latency: nat,
    pub tx_hash: Seq<char>,
    pub code: nat,
    pub height: int,
    pub failed: bool,
    pub error_msg: Seq<char>,
}

impl View for TxResult {
    type V = TxResultView;

    open spec fn view(&self) -> TxResultView {
        TxResultView {
            submit_time: self.submit_time as nat,
            commit_time: self.commit_time as nat,
            latency: self.latency as nat,
            tx_hash: self.tx_hash@,
            code: self.code as nat,
            height: self.height as int,
            failed: self.failed,
            error_msg: self.error_msg@,
        }
    }
}

/// The record of a confirmed attempt.
pub open spec fn success_record(
    submit_time: nat,
    commit_time: nat,
    latency: nat,
    tx_hash: Seq<char>,
    code: nat,
    height: int,
) -> TxResultView {
    TxResultView {
        submit_time,
        commit_time,
        latency,
        tx_hash,
        code,
        height,
        failed: false,
        error_msg: Seq::empty(),
    }
}

/// The record of an attempt that failed with the given error text.
pub open spec fn failure_record(submit_time: nat, error_msg: Seq<char>) -> TxResultView {
    TxResultView {
        submit_time,
        commit_time: 0,
        latency: 0,
        tx_hash: Seq::empty(),
        code: 0,
        height: 0,
        failed: true,
        error_msg,
    }
}

impl TxResult {
    /// Records a confirmed attempt.
    pub fn success(
        submit_time: u64,
        commit_time: u64,
        latency: u64,
        tx_hash: String,
        code: u32,
        height: i64,
    ) -> (r: Self)
        ensures
            r@ == success_record(
                submit_time as nat,
                commit_time as nat,
                latency as nat,
                tx_hash@,
                code as nat,
                height as int,
            ),
    {
        Self {
            submit_time,
            commit_time,
            latency,
            tx_hash,
            code,
            height,
            failed: false,
            error_msg: String::new(),
        }
    }

    /// Records a failed attempt: nothing was confirmed, so there is no commit
    /// instant, no latency and no transaction data, only the error's text.
    pub fn failure(submit_time: u64, error_msg: String) -> (r: Self)
        ensures
            r@ == failure_record(submit_time as nat, error_msg@),
    {
        Self {
            submit_time,
            commit_time: 0,
            latency: 0,
            tx_hash: String::new(),
            code: 0,
            height: 0,
            failed: true,
            error_msg,
        }
    }

    /// The latency in whole milliseconds.
    pub fn latency_millis(&self) -> (ms: u64)
        ensures
            ms == self.latency / NANOS_PER_MILLI,
    {
        self.latency / NANOS_PER_MILLI
    }
}

/// Whether `size` is a payload size that the bounds allow: any size from
/// `size_min` to `size_max` where the bounds span a range, and `size_min`
/// itself where they do not.
pub open spec fn size_allowed(size_min: usize, size_max: usize, size: usize) -> bool {
    if size_max > size_min {
        size_min <= size <= size_max
    } else {
        size == size_min
    }
}

/// Draws a size from the thread's random number generator with
/// `rand::Rng::gen_range` on the inclusive range from `low` to `high`.
/// The draw is random, so all that is claimed is that it lies in the range;
/// the range must not be empty, where `gen_range` panics.
#[verifier::external_body]
fn random_size(low: usize, high: usize) -> (size: usize)
    requires
        low <= high,
    ensures
        low <= size <= high,
{
    rand::thread_rng().gen_range(low..=high)
}

/// Makes `len` bytes and fills them from the thread's random number generator
/// with `rand::Rng::fill`. Nothing is claimed of the bytes but their number.
#[verifier::external_body]
fn random_bytes(len: usize) -> (data: Vec<u8>)
    ensures
        data@.len() == len,
{
    let mut data = vec![0u8; len];
    rand::thread_rng().fill(&mut data[..]);
    data
}

/// Generates a payload of random bytes whose size is drawn uniformly from
/// `size_min` to `size_max`, or is `size_min` where the bounds span no range.
/// Returns the size with the payload.
pub fn generate_random_data(size_min: usize, size_max: usize) -> (r: (usize, Vec<u8>))
    ensures
        r.1@.len() == r.0,
        size_allowed(size_min, size_max, r.0),
{
    let size: usize = if size_max > size_min {
        random_size(size_min, size_max)
    } else {
        size_min
    };
    let data = random_bytes(size);
    (size, data)
}

/// A payload generated for equal bounds has exactly that size.
pub proof fn lemma_fixed_size(size: usize, drawn: usize)
    requires
        size_allowed(size, size, drawn),
    ensures
        drawn == size,
{
}

/// A payload generated for ordered bounds has a size within them.
pub proof fn lemma_size_within_bounds(size_min: usize, size_max: usize, drawn: usize)
    requires
        size_min <= size_max,
        size_allowed(size_min, size_max, drawn),
    ensures
        size_min <= drawn <= size_max,
{
}

} // verus!

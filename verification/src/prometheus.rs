//! The metrics that the monitor keeps: counters of submissions and their
//! outcomes, a gauge of transactions in flight, and histograms of latencies.
//!
//! The metrics are plain values held by the caller. Latencies are spans in
//! nanoseconds; a histogram's bucket bounds are in nanoseconds too.

use vstd::prelude::*;

verus! {

/// The largest single observation, which bounds a histogram's sum.
pub const MAX_OBSERVATION: u128 = 0xFFFF_FFFF_FFFF_FFFF;

/// A histogram over fixed buckets. Bucket `i` counts the observations that
/// are at most `bounds[i]` and greater than every earlier bound; one more
/// bucket, the last, counts those greater than every bound.
#[derive(Debug, Clone)]
pub struct Histogram {
    pub bounds: Vec<u64>,
    pub counts: Vec<u64>,
    pub sum: u128,
    pub count: u64,
}

/// The mathematical value of a [`Histogram`].
pub struct HistogramView {
    pub bounds: Seq<u64>,
    pub counts: Seq<u64>,
    pub sum: nat,
    pub count: nat,
}

impl View for Histogram {
    type V = HistogramView;

    open spec fn view(&self) -> HistogramView {
        HistogramView {
            bounds: self.bounds@,
            counts: self.counts@,
            sum: self.sum as nat,
            count: self.count as nat,
        }
    }
}

/// Whether bucket `index` is the one that counts `value`: the first whose
/// bound is not less than the value, or the one after the last bound where
/// there is none.
pub open spec fn is_bucket_of(bounds: Seq<u64>, value: u64, index: int) -> bool {
    &&& 0 <= index <= bounds.len()
    &&& forall|j: int| 0 <= j < index ==> bounds[j] < value
    &&& index < bounds.len() ==> value <= bounds[index]
}

/// The bucket that counts `value`.
pub open spec fn bucket_of(bounds: Seq<u64>, value: u64) -> int {
    choose|index: int| is_bucket_of(bounds, value, index)
}

/// Only one bucket counts a value, so the bucket found for it is
/// [`bucket_of`].
pub proof fn lemma_bucket_unique(bounds: Seq<u64>, value: u64, index: int)
    requires
        is_bucket_of(bounds, value, index),
    ensures
        bucket_of(bounds, value) == index,
{
    let chosen = bucket_of(bounds, value);
    assert(is_bucket_of(bounds, value, chosen));
    if chosen < index {
        assert(bounds[chosen] < value);
    } else if index < chosen {
        assert(bounds[index] < value);
    }
}

/// An empty histogram over the given bounds.
pub open spec fn empty_histogram(bounds: Seq<u64>) -> HistogramView {
    HistogramView {
        bounds,
        counts: Seq::new(bounds.len() + 1, |i: int| 0u64),
        sum: 0,
        count: 0,
    }
}

/// The histogram after one more observation: its bucket and the number of
/// observations grow by one, the sum by the value.
pub open spec fn observed(h: HistogramView, value: u64) -> HistogramView {
    let index = bucket_of(h.bounds, value);
    HistogramView {
        bounds: h.bounds,
        counts: h.counts.update(index, (h.counts[index] + 1) as u64),
        sum: h.sum + value as nat,
        count: h.count + 1,
    }
}

impl Histogram {
    /// One count for each bound and one more, none greater than the number of
    /// observations, and a sum that this many observations can have.
    pub open spec fn wf(&self) -> bool {
        &&& self.counts@.len() == self.bounds@.len() + 1
        &&& forall|i: int| 0 <= i < self.counts@.len() ==> self.counts@[i] <= self.count
        &&& self.sum <= self.count * MAX_OBSERVATION
    }

    /// An empty histogram with the given bucket bounds.
    pub fn new(bounds: Vec<u64>) -> (h: Self)
        requires
            bounds@.len() < usize::MAX,
        ensures
            h.wf(),
            h@ == empty_histogram(bounds@),
    {
        let mut counts: Vec<u64> = Vec::new();
        let mut i: usize = 0;
        while i <= bounds.len()
            invariant
                bounds@.len() < usize::MAX,
                i <= bounds@.len() + 1,
                counts@ == Seq::new(i as nat, |k: int| 0u64),
            decreases bounds@.len() + 1 - i,
        {
            counts.push(0);
            i = i + 1;
            assert(counts@ =~= Seq::new(i as nat, |k: int| 0u64));
        }
        Histogram { bounds, counts, sum: 0, count: 0 }
    }

    /// The index of the bucket that counts `value`.
    pub fn bucket_index(&self, value: u64) -> (index: usize)
        ensures
            index == bucket_of(self.bounds@, value),
            is_bucket_of(self.bounds@, value, index as int),
    {
        let mut i: usize = 0;
        while i < self.bounds.len() && self.bounds[i] < value
            invariant
                i <= self.bounds@.len(),
                forall|j: int| 0 <= j < i ==> self.bounds@[j] < value,
            decreases self.bounds@.len() - i,
        {
            i = i + 1;
        }
        proof {
            lemma_bucket_unique(self.bounds@, value, i as int);
        }
        i
    }

    /// Counts one observation.
    pub fn observe(&mut self, value: u64)
        requires
            old(self).wf(),
            old(self).count < u64::MAX,
        ensures
            final(self).wf(),
            final(self)@ == observed(old(self)@, value),
    {
        let index = self.bucket_index(value);
        let bumped: u64 = self.counts[index] + 1;
        self.counts.set(index, bumped);
        assert(self.sum + value <= (self.count + 1) * MAX_OBSERVATION) by {
            assert(value <= MAX_OBSERVATION);
        }
        self.sum = self.sum + value as u128;
        self.count = self.count + 1;
    }
}

/// The bucket bounds of the confirmation latency histogram: from half
/// a second to two minutes.
pub open spec fn latency_bounds() -> Seq<u64> {
    seq![
        500_000_000u64,
        1_000_000_000u64,
        2_000_000_000u64,
        5_000_000_000u64,
        10_000_000_000u64,
        15_000_000_000u64,
        20_000_000_000u64,
        30_000_000_000u64,
        45_000_000_000u64,
        60_000_000_000u64,
        90_000_000_000u64,
        120_000_000_000u64,
    ]
}

/// The bucket bounds of the histogram of the time a broadcast takes to be
/// accepted: from ten milliseconds to five seconds.
pub open spec fn checktx_bounds() -> Seq<u64> {
    seq![
        10_000_000u64,
        25_000_000u64,
        50_000_000u64,
        100_000_000u64,
        200_000_000u64,
        350_000_000u64,
        500_000_000u64,
        750_000_000u64,
        1_000_000_000u64,
        2_000_000_000u64,
        5_000_000_000u64,
    ]
}

/// The monitor's metrics.
#[derive(Debug, Clone)]
pub struct Metrics {
    /// Transactions whose broadcast was accepted.
    pub tx_submitted: u64,
    /// Transactions that were confirmed.
    pub tx_confirmed: u64,
    /// Transactions whose broadcast failed.
    pub tx_broadcast_failed: u64,
    /// Transactions whose confirmation failed.
    pub tx_confirm_failed: u64,
    /// Transactions that were accepted and have no outcome yet.
    pub tx_in_flight: i128,
    /// Payload bytes of the confirmed transactions.
    pub bytes_confirmed: u128,
    /// Latencies from submission to confirmation.
    pub latency: Histogram,
    /// Times from submission to the broadcast's acceptance.
    pub checktx: Histogram,
}

/// The mathematical value of [`Metrics`].
pub struct MetricsView {
    pub tx_submitted: nat,
    pub tx_confirmed: nat,
    pub tx_broadcast_failed: nat,
    pub tx_confirm_failed: nat,
    pub tx_in_flight: int,
    pub bytes_confirmed: nat,
    pub latency: HistogramView,
    pub checktx: HistogramView,
}

impl View for Metrics {
    type V = MetricsView;

    open spec fn view(&self) -> MetricsView {
        MetricsView {
            tx_submitted: self.tx_submitted as nat,
            tx_confirmed: self.tx_confirmed as nat,
            tx_broadcast_failed: self.tx_broadcast_failed as nat,
            tx_confirm_failed: self.tx_confirm_failed as nat,
            tx_in_flight: self.tx_in_flight as int,
            bytes_confirmed: self.bytes_confirmed as nat,
            latency: self.latency@,
            checktx: self.checktx@,
        }
    }
}

/// Metrics before anything was recorded.
pub open spec fn initial_metrics() -> MetricsView {
    MetricsView {
        tx_submitted: 0,
        tx_confirmed: 0,
        tx_broadcast_failed: 0,
        tx_confirm_failed: 0,
        tx_in_flight: 0,
        bytes_confirmed: 0,
        latency: empty_histogram(latency_bounds()),
        checktx: empty_histogram(checktx_bounds()),
    }
}

/// The metrics after an accepted broadcast: one more transaction submitted,
/// one more in flight.
pub open spec fn with_submit(m: MetricsView) -> MetricsView {
    MetricsView { tx_submitted: m.tx_submitted + 1, tx_in_flight: m.tx_in_flight + 1, ..m }
}

/// The metrics after a confirmation: one more transaction confirmed, one
/// fewer in flight, the payload's bytes added to the confirmed bytes, and
/// the latency observed.
pub open spec fn with_confirm(m: MetricsView, latency: u64, blob_size: usize) -> MetricsView {
    MetricsView {
        tx_confirmed: m.tx_confirmed + 1,
        tx_in_flight: m.tx_in_flight - 1,
        bytes_confirmed: m.bytes_confirmed + blob_size as nat,
        latency: observed(m.latency, latency),
        ..m
    }
}

/// The metrics after the time a broadcast took was observed.
pub open spec fn with_checktx_latency(m: MetricsView, latency: u64) -> MetricsView {
    MetricsView { checktx: observed(m.checktx, latency), ..m }
}

/// The metrics after a failed broadcast: one more failure, and the number in
/// flight as before, since the transaction was never accepted.
pub open spec fn with_broadcast_failure(m: MetricsView) -> MetricsView {
    MetricsView { tx_broadcast_failed: m.tx_broadcast_failed + 1, ..m }
}

/// The metrics after a failed confirmation: one more failure, one fewer in
/// flight.
pub open spec fn with_confirm_failure(m: MetricsView) -> MetricsView {
    MetricsView {
        tx_confirm_failed: m.tx_confirm_failed + 1,
        tx_in_flight: m.tx_in_flight - 1,
        ..m
    }
}

/// The metrics after a cancellation: one fewer in flight, and neither a
/// confirmation nor a failure counted.
pub open spec fn with_cancellation(m: MetricsView) -> MetricsView {
    MetricsView { tx_in_flight: m.tx_in_flight - 1, ..m }
}

impl Metrics {
    /// Both histograms are well formed, and the confirmed bytes are what that
    /// many confirmed payloads can hold.
    pub open spec fn wf(&self) -> bool {
        &&& self.latency.wf()
        &&& self.checktx.wf()
        &&& self.bytes_confirmed <= self.tx_confirmed * MAX_OBSERVATION
    }

    /// Metrics with every counter at zero and both histograms empty.
    pub fn new() -> (m: Self)
        ensures
            m.wf(),
            m@ == initial_metrics(),
    {
        let latency_bounds: Vec<u64> = vec![
            500_000_000u64,
            1_000_000_000u64,
            2_000_000_000u64,
            5_000_000_000u64,
            10_000_000_000u64,
            15_000_000_000u64,
            20_000_000_000u64,
            30_000_000_000u64,
            45_000_000_000u64,
            60_000_000_000u64,
            90_000_000_000u64,
            120_000_000_000u64,
        ];
        let checktx_bounds: Vec<u64> = vec![
            10_000_000u64,
            25_000_000u64,
            50_000_000u64,
            100_000_000u64,
            200_000_000u64,
            350_000_000u64,
            500_000_000u64,
            750_000_000u64,
            1_000_000_000u64,
            2_000_000_000u64,
            5_000_000_000u64,
        ];
        assert(latency_bounds@ =~= self::latency_bounds());
        assert(checktx_bounds@ =~= self::checktx_bounds());
        Metrics {
            tx_submitted: 0,
            tx_confirmed: 0,
            tx_broadcast_failed: 0,
            tx_confirm_failed: 0,
            tx_in_flight: 0,
            bytes_confirmed: 0,
            latency: Histogram::new(latency_bounds),
            checktx: Histogram::new(checktx_bounds),
        }
    }
}

/// Records that a broadcast was accepted.
pub fn record_submit(m: &mut Metrics)
    requires
        old(m).wf(),
        old(m).tx_submitted < u64::MAX,
        old(m).tx_in_flight < i128::MAX,
    ensures
        final(m).wf(),
        final(m)@ == with_submit(old(m)@),
{
    m.tx_submitted = m.tx_submitted + 1;
    m.tx_in_flight = m.tx_in_flight + 1;
}

/// Records a confirmation with its latency and the size of its payload.
pub fn record_confirm(m: &mut Metrics, latency: u64, blob_size: usize)
    requires
        old(m).wf(),
        old(m).tx_confirmed < u64::MAX,
        old(m).tx_in_flight > i128::MIN,
        old(m).latency.count < u64::MAX,
    ensures
        final(m).wf(),
        final(m)@ == with_confirm(old(m)@, latency, blob_size),
{
    m.tx_confirmed = m.tx_confirmed + 1;
    m.tx_in_flight = m.tx_in_flight - 1;
    assert(m.bytes_confirmed + blob_size <= m.tx_confirmed * MAX_OBSERVATION) by {
        assert(blob_size <= MAX_OBSERVATION);
    }
    m.bytes_confirmed = m.bytes_confirmed + blob_size as u128;
    m.latency.observe(latency);
}

/// Records how long a broadcast took to be accepted.
pub fn record_checktx_latency(m: &mut Metrics, latency: u64)
    requires
        old(m).wf(),
        old(m).checktx.count < u64::MAX,
    ensures
        final(m).wf(),
        final(m)@ == with_checktx_latency(old(m)@, latency),
{
    m.checktx.observe(latency);
}

/// Records a broadcast that failed.
pub fn record_broadcast_failure(m: &mut Metrics)
    requires
        old(m).wf(),
        old(m).tx_broadcast_failed < u64::MAX,
    ensures
        final(m).wf(),
        final(m)@ == with_broadcast_failure(old(m)@),
{
    m.tx_broadcast_failed = m.tx_broadcast_failed + 1;
}

/// Records a confirmation that failed.
pub fn record_confirm_failure(m: &mut Metrics)
    requires
        old(m).wf(),
        old(m).tx_confirm_failed < u64::MAX,
        old(m).tx_in_flight > i128::MIN,
    ensures
        final(m).wf(),
        final(m)@ == with_confirm_failure(old(m)@),
{
    m.tx_confirm_failed = m.tx_confirm_failed + 1;
    m.tx_in_flight = m.tx_in_flight - 1;
}

/// Takes a cancelled transaction out of the number in flight.
pub fn dec_in_flight(m: &mut Metrics)
    requires
        old(m).wf(),
        old(m).tx_in_flight > i128::MIN,
    ensures
        final(m).wf(),
        final(m)@ == with_cancellation(old(m)@),
{
    m.tx_in_flight = m.tx_in_flight - 1;
}

} // verus!

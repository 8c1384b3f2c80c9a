//! What holds of the pipeline in every state that it can reach.

use crate::pipeline::Attempt;
use crate::pipeline::Event;
use crate::pipeline::model::PipelineView;
use crate::pipeline::model::after_broadcast_accepted;
use crate::pipeline::model::after_broadcast_failed;
use crate::pipeline::model::attempts_valid;
use crate::pipeline::model::can_take;
use crate::pipeline::model::can_take_all;
use crate::pipeline::model::disjoint_ids;
use crate::pipeline::model::distinct_ids;
use crate::pipeline::model::end_to_end_latency;
use crate::pipeline::model::holds;
use crate::pipeline::model::initial_state;
use crate::pipeline::model::inv;
use crate::pipeline::model::is_place_of;
use crate::pipeline::model::next_state;
use crate::pipeline::model::place_of;
use crate::pipeline::model::released;
use crate::pipeline::model::state_after;
use crate::prometheus::with_cancellation;
use crate::prometheus::with_confirm;
use crate::prometheus::with_confirm_failure;
use crate::tx::failure_record;
use crate::tx::success_record;
use vstd::prelude::*;

verus! {

/// At every instant no more permits are held than there are, each
/// confirmation under way holds one and nothing else does, and none is held
/// once the pipeline has stopped: every permit taken was given back.
pub proof fn lemma_permits_accounted(s: PipelineView)
    requires
        inv(s),
    ensures
        s.permits_held <= s.capacity,
        s.permits_held == s.confirming.len(),
        s.phase is Stopped ==> s.permits_held == 0,
{
}

/// Once the pipeline has stopped, every tick's submission has had its one
/// outcome: its broadcast failed, or it was accepted and then confirmed,
/// refused, given up or, where confirmations are not followed up, let go.
/// None was abandoned.
pub proof fn lemma_stopped_means_resolved(s: PipelineView)
    requires
        inv(s),
        s.phase is Stopped,
    ensures
        s.ticks == s.metrics.tx_broadcast_failed + s.metrics.tx_confirmed
            + s.metrics.tx_confirm_failed + s.cancelled + s.untracked,
        s.metrics.tx_in_flight == 0,
{
}

/// A list that holds a submission with an id has a first one.
proof fn lemma_first_before(list: Seq<Attempt>, id: u64, index: int)
    requires
        0 <= index < list.len(),
        list[index].id == id,
    ensures
        exists|place: int| is_place_of(list, id, place),
    decreases index,
{
    if forall|j: int| 0 <= j < index ==> list[j].id != id {
        assert(is_place_of(list, id, index));
    } else {
        let earlier = choose|j: int| 0 <= j < index && list[j].id == id;
        lemma_first_before(list, id, earlier);
    }
}

/// The place of a submission that a list holds is the place of the first
/// with its id.
pub proof fn lemma_place_exists(list: Seq<Attempt>, id: u64)
    requires
        holds(list, id),
    ensures
        is_place_of(list, id, place_of(list, id)),
{
    let index = choose|i: int| 0 <= i < list.len() && list[i].id == id;
    lemma_first_before(list, id, index);
}

/// [`inv`] holds after a permit was given back by a confirmation that has
/// left the submissions under way.
proof fn lemma_release_keeps_invariant(before: PipelineView, s: PipelineView, now: u64)
    requires
        inv(before),
        before.confirming.len() > 0,
        s.confirming.len() + 1 == before.confirming.len(),
        s.permits_held == before.permits_held,
        s.capacity == before.capacity,
        s.waiting == before.waiting,
        s.broadcasting == before.broadcasting,
        s.phase == before.phase,
        s.size_min == before.size_min,
        s.size_max == before.size_max,
        s.ticks == before.ticks,
        s.record_broadcast_failures == before.record_broadcast_failures,
        s.track_confirmations == before.track_confirmations,
        s.untracked == before.untracked,
        attempts_valid(s.confirming, s),
        distinct_ids(s.confirming),
        disjoint_ids(s.broadcasting, s.confirming),
        disjoint_ids(s.waiting, s.confirming),
        s.metrics.tx_submitted == before.metrics.tx_submitted,
        s.metrics.tx_broadcast_failed == before.metrics.tx_broadcast_failed,
        s.metrics.tx_confirmed + s.metrics.tx_confirm_failed + s.cancelled
            == before.metrics.tx_confirmed + before.metrics.tx_confirm_failed + before.cancelled
            + 1,
        s.metrics.tx_in_flight == before.metrics.tx_in_flight - 1,
        s.metrics.latency.count == s.metrics.tx_confirmed,
        s.metrics.checktx.count == s.metrics.tx_submitted,
        s.results.len() == s.metrics.tx_confirmed + s.metrics.tx_confirm_failed
            + if s.record_broadcast_failures {
            s.metrics.tx_broadcast_failed
        } else {
            0
        },
    ensures
        inv(released(s, now)),
{
    let after = released(s, now);
    if s.waiting.len() > 0 {
        let next = s.waiting[0];
        assert(after.waiting == s.waiting.remove(0));
        assert forall|i: int| 0 <= i < after.waiting.len() implies after.waiting[i]
            == s.waiting[i + 1] by {}
        assert forall|i: int| 0 <= i < after.confirming.len() implies (i < s.confirming.len()
            && after.confirming[i] == s.confirming[i]) || (i == s.confirming.len()
            && after.confirming[i].id == next.id && after.confirming[i].size == next.size) by {}
    }
}

/// Whatever happens, [`inv`] goes on holding: it holds after every event
/// that is taken in a state in which it held.
pub proof fn lemma_event_keeps_invariant(s: PipelineView, event: Event, size: usize)
    requires
        inv(s),
        can_take(s, event, size),
    ensures
        inv(next_state(s, event, size)),
{
    match event {
        Event::SubmissionTick { now } => {},
        Event::StatusTick => {},
        Event::BroadcastFailed { id, error } => {
            lemma_broadcast_failed_keeps_invariant(s, id, error@);
        },
        Event::BroadcastAccepted { id, now } => {
            lemma_broadcast_accepted_keeps_invariant(s, id, now);
        },
        Event::Confirmed { id, tx_hash, height, now } => {
            if holds(s.confirming, id) {
                lemma_place_exists(s.confirming, id);
                let place = place_of(s.confirming, id);
                let attempt = s.confirming[place];
                let latency = end_to_end_latency(attempt.submit_time, now, attempt.admission_wait);
                let left = PipelineView {
                    confirming: s.confirming.remove(place),
                    results: s.results.push(
                        success_record(
                            attempt.submit_time as nat,
                            now as nat,
                            latency as nat,
                            tx_hash@,
                            0,
                            height as int,
                        ),
                    ),
                    metrics: with_confirm(s.metrics, latency, attempt.size),
                    ..s
                };
                lemma_removal_keeps_ids(s, place);
                lemma_release_keeps_invariant(s, left, now);
            }
        },
        Event::ConfirmFailed { id, error, now } => {
            if holds(s.confirming, id) {
                lemma_place_exists(s.confirming, id);
                let place = place_of(s.confirming, id);
                let attempt = s.confirming[place];
                let left = PipelineView {
                    confirming: s.confirming.remove(place),
                    results: s.results.push(failure_record(attempt.submit_time as nat, error@)),
                    metrics: with_confirm_failure(s.metrics),
                    ..s
                };
                lemma_removal_keeps_ids(s, place);
                lemma_release_keeps_invariant(s, left, now);
            }
        },
        Event::Cancelled { id, now } => {
            if holds(s.confirming, id) {
                lemma_place_exists(s.confirming, id);
                let place = place_of(s.confirming, id);
                let left = PipelineView {
                    confirming: s.confirming.remove(place),
                    cancelled: s.cancelled + 1,
                    metrics: with_cancellation(s.metrics),
                    ..s
                };
                lemma_removal_keeps_ids(s, place);
                lemma_release_keeps_invariant(s, left, now);
            }
        },
        Event::Shutdown => {},
    }
}

/// Taking a confirmation out of those under way leaves the rest valid and
/// their ids distinct from each other and from those of the other stages.
proof fn lemma_removal_keeps_ids(s: PipelineView, place: int)
    requires
        inv(s),
        0 <= place < s.confirming.len(),
    ensures
        attempts_valid(s.confirming.remove(place), s),
        distinct_ids(s.confirming.remove(place)),
        disjoint_ids(s.broadcasting, s.confirming.remove(place)),
        disjoint_ids(s.waiting, s.confirming.remove(place)),
{
    let rest = s.confirming.remove(place);
    assert forall|i: int| 0 <= i < rest.len() implies rest[i] == s.confirming[if i < place {
        i
    } else {
        i + 1
    }] by {}
}

/// [`inv`] holds after a broadcast failed.
proof fn lemma_broadcast_failed_keeps_invariant(s: PipelineView, id: u64, error: Seq<char>)
    requires
        inv(s),
    ensures
        inv(after_broadcast_failed(s, id, error)),
{
    if holds(s.broadcasting, id) {
        lemma_place_exists(s.broadcasting, id);
        let place = place_of(s.broadcasting, id);
        let rest = s.broadcasting.remove(place);
        assert forall|i: int| 0 <= i < rest.len() implies rest[i] == s.broadcasting[if i
            < place {
            i
        } else {
            i + 1
        }] by {}
    }
}

/// [`inv`] holds after a broadcast was accepted.
proof fn lemma_broadcast_accepted_keeps_invariant(s: PipelineView, id: u64, now: u64)
    requires
        inv(s),
    ensures
        inv(after_broadcast_accepted(s, id, now)),
{
    if holds(s.broadcasting, id) {
        lemma_place_exists(s.broadcasting, id);
        let place = place_of(s.broadcasting, id);
        let attempt = s.broadcasting[place];
        let rest = s.broadcasting.remove(place);
        let after = after_broadcast_accepted(s, id, now);
        assert forall|i: int| 0 <= i < rest.len() implies rest[i] == s.broadcasting[if i
            < place {
            i
        } else {
            i + 1
        }] by {}
        if !s.track_confirmations {
        } else if s.permits_held < s.capacity {
            assert forall|i: int| 0 <= i < after.confirming.len() implies (i
                < s.confirming.len() && after.confirming[i] == s.confirming[i]) || (i
                == s.confirming.len() && after.confirming[i].id == attempt.id
                && after.confirming[i].size == attempt.size) by {}
        } else {
            assert forall|i: int| 0 <= i < after.waiting.len() implies (i < s.waiting.len()
                && after.waiting[i] == s.waiting[i]) || (i == s.waiting.len()
                && after.waiting[i].id == attempt.id && after.waiting[i].size == attempt.size) by {}
        }
    }
}

/// In every state that a new pipeline can reach, [`inv`] holds: at every
/// instant no more permits are held than there are, and each is held by
/// a confirmation under way.
pub proof fn lemma_invariant_always_holds(
    size_min: usize,
    size_max: usize,
    capacity: usize,
    record_broadcast_failures: bool,
    track_confirmations: bool,
    events: Seq<(Event, usize)>,
)
    requires
        1 <= size_min <= size_max,
        can_take_all(
            initial_state(
                size_min,
                size_max,
                capacity,
                record_broadcast_failures,
                track_confirmations,
            ),
            events,
        ),
    ensures
        inv(
            state_after(
                initial_state(
                    size_min,
                    size_max,
                    capacity,
                    record_broadcast_failures,
                    track_confirmations,
                ),
                events,
            ),
        ),
    decreases events.len(),
{
    let start = initial_state(
        size_min,
        size_max,
        capacity,
        record_broadcast_failures,
        track_confirmations,
    );
    if events.len() > 0 {
        lemma_invariant_always_holds(
            size_min,
            size_max,
            capacity,
            record_broadcast_failures,
            track_confirmations,
            events.drop_last(),
        );
        lemma_event_keeps_invariant(
            state_after(start, events.drop_last()),
            events.last().0,
            events.last().1,
        );
    }
}

/// A submission is in one stage at a time: being broadcast, waiting for
/// a permit, or awaiting its confirmation.
pub proof fn lemma_one_stage_at_a_time(s: PipelineView, id: u64)
    requires
        inv(s),
    ensures
        !(holds(s.broadcasting, id) && holds(s.waiting, id)),
        !(holds(s.broadcasting, id) && holds(s.confirming, id)),
        !(holds(s.waiting, id) && holds(s.confirming, id)),
{
}

/// One result is recorded for each attempt that ended in a confirmation or
/// a failure, none for one that was given up, and one for a failed broadcast
/// only where the pipeline was made to record such.
pub proof fn lemma_one_result_per_outcome(s: PipelineView)
    requires
        inv(s),
    ensures
        s.results.len() == s.metrics.tx_confirmed + s.metrics.tx_confirm_failed
            + if s.record_broadcast_failures {
            s.metrics.tx_broadcast_failed
        } else {
            0
        },
{
}

/// Only one place is that of the first submission with an id.
pub proof fn lemma_place_unique(list: Seq<Attempt>, id: u64, index: int)
    requires
        is_place_of(list, id, index),
    ensures
        place_of(list, id) == index,
        holds(list, id),
{
    let chosen = place_of(list, id);
    assert(is_place_of(list, id, chosen));
}

} // verus!

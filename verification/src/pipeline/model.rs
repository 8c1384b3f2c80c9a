//! The pipeline's states and the state that each event leads to.

use crate::pipeline::Action;
use crate::pipeline::Attempt;
use crate::pipeline::Event;
use crate::pipeline::Phase;
use crate::prometheus::MetricsView;
use crate::prometheus::initial_metrics;
use crate::prometheus::with_broadcast_failure;
use crate::prometheus::with_cancellation;
use crate::prometheus::with_checktx_latency;
use crate::prometheus::with_confirm;
use crate::prometheus::with_confirm_failure;
use crate::prometheus::with_submit;
use crate::tx::TxResultView;
use crate::tx::failure_record;
use crate::tx::size_allowed;
use crate::tx::success_record;
use vstd::prelude::*;

verus! {

/// The mathematical value of a [`Pipeline`].
pub struct PipelineView {
    pub phase: Phase,
    pub size_min: usize,
    pub size_max: usize,
    /// Whether a failed broadcast is recorded as a failed result.
    pub record_broadcast_failures: bool,
    /// Whether accepted submissions are followed up to their confirmation.
    pub track_confirmations: bool,
    /// The number of submission ticks that were acted on.
    pub ticks: nat,
    /// The number of confirmations that were given up.
    pub cancelled: nat,
    /// The number of accepted submissions that were not followed up.
    pub untracked: nat,
    /// The number of permits.
    pub capacity: nat,
    /// The number of permits that are held.
    pub permits_held: nat,
    /// The submissions whose broadcast has no outcome yet.
    pub broadcasting: Seq<Attempt>,
    /// The accepted submissions that wait for a permit, the first to come first.
    pub waiting: Seq<Attempt>,
    /// The submissions that hold a permit and await their confirmation.
    pub confirming: Seq<Attempt>,
    /// The results, in the order in which the attempts ended.
    pub results: Seq<TxResultView>,
    pub metrics: MetricsView,
}

/// The span from one instant to a later one, and zero where the second is
/// not later.
pub open spec fn span(from: u64, to: u64) -> u64 {
    if to >= from {
        (to - from) as u64
    } else {
        0
    }
}

/// The latency of a confirmation: the time from submission to commit, less
/// the time spent waiting for a permit.
pub open spec fn end_to_end_latency(submit_time: u64, commit_time: u64, admission_wait: u64) -> u64 {
    span(admission_wait, span(submit_time, commit_time))
}

/// Whether `list` holds a submission with this id.
pub open spec fn holds(list: Seq<Attempt>, id: u64) -> bool {
    exists|i: int| 0 <= i < list.len() && list[i].id == id
}

/// Whether `index` is the place of the first submission with this id.
pub open spec fn is_place_of(list: Seq<Attempt>, id: u64, index: int) -> bool {
    &&& 0 <= index < list.len()
    &&& list[index].id == id
    &&& forall|j: int| 0 <= j < index ==> list[j].id != id
}

/// The place in `list` of the first submission with this id.
pub open spec fn place_of(list: Seq<Attempt>, id: u64) -> int {
    choose|index: int| is_place_of(list, id, index)
}

/// Whether nothing is under way.
pub open spec fn is_idle(s: PipelineView) -> bool {
    s.broadcasting.len() == 0 && s.waiting.len() == 0 && s.confirming.len() == 0
}

/// The state with its phase moved on to `Stopped` where the pipeline was
/// draining and nothing is under way any more.
pub open spec fn settled(s: PipelineView) -> PipelineView {
    if s.phase is Draining && is_idle(s) {
        PipelineView { phase: Phase::Stopped, ..s }
    } else {
        s
    }
}

/// Whether every submission in `list` has a payload size within the bounds
/// and an id that a tick has given out.
pub open spec fn attempts_valid(list: Seq<Attempt>, s: PipelineView) -> bool {
    forall|i: int|
        0 <= i < list.len() ==> s.size_min <= (#[trigger] list[i]).size <= s.size_max && 1
            <= list[i].id <= s.ticks
}

/// Whether no two submissions in `list` have the same id.
pub open spec fn distinct_ids(list: Seq<Attempt>) -> bool {
    forall|i: int, j: int|
        0 <= i < j < list.len() ==> (#[trigger] list[i]).id != (#[trigger] list[j]).id
}

/// Whether no submission in `a` has the id of one in `b`.
pub open spec fn disjoint_ids(a: Seq<Attempt>, b: Seq<Attempt>) -> bool {
    forall|i: int, j: int|
        0 <= i < a.len() && 0 <= j < b.len() ==> (#[trigger] a[i]).id != (#[trigger] b[j]).id
}

/// What holds of the pipeline at every instant.
pub open spec fn inv(s: PipelineView) -> bool {
    // the payload bounds are those of a valid configuration
    &&& 1 <= s.size_min <= s.size_max
    // never more permits are held than there are
    &&& s.permits_held <= s.capacity
    // a permit is held by each confirmation under way, and by nothing else
    &&& s.permits_held == s.confirming.len()
    // nothing waits while a permit is free
    &&& s.waiting.len() > 0 ==> s.permits_held == s.capacity
    // each tick's submission is under way, failed or was accepted
    &&& s.metrics.tx_submitted + s.metrics.tx_broadcast_failed + s.broadcasting.len() == s.ticks
    // each accepted submission is under way or has its one outcome
    &&& s.metrics.tx_confirmed + s.metrics.tx_confirm_failed + s.cancelled + s.untracked
        + s.waiting.len() + s.confirming.len() == s.metrics.tx_submitted
    // nothing is followed up where that is not asked for
    &&& !s.track_confirmations ==> s.waiting.len() == 0 && s.confirming.len() == 0
    &&& s.metrics.tx_in_flight == s.waiting.len() + s.confirming.len()
    &&& s.metrics.latency.count == s.metrics.tx_confirmed
    &&& s.metrics.checktx.count == s.metrics.tx_submitted
    // one result for each outcome that is recorded
    &&& s.results.len() == s.metrics.tx_confirmed + s.metrics.tx_confirm_failed
        + if s.record_broadcast_failures {
        s.metrics.tx_broadcast_failed
    } else {
        0
    }
    // the pipeline drains as long as something is under way, and no longer
    &&& s.phase is Stopped ==> is_idle(s)
    &&& s.phase is Draining ==> !is_idle(s)
    &&& attempts_valid(s.broadcasting, s)
    &&& attempts_valid(s.waiting, s)
    &&& attempts_valid(s.confirming, s)
    // a submission is in one stage at a time, and its id is its own
    &&& distinct_ids(s.broadcasting)
    &&& distinct_ids(s.waiting)
    &&& distinct_ids(s.confirming)
    &&& disjoint_ids(s.broadcasting, s.waiting)
    &&& disjoint_ids(s.broadcasting, s.confirming)
    &&& disjoint_ids(s.waiting, s.confirming)
}

/// The state in which a pipeline starts.
pub open spec fn initial_state(
    size_min: usize,
    size_max: usize,
    capacity: usize,
    record_broadcast_failures: bool,
    track_confirmations: bool,
) -> PipelineView {
    PipelineView {
        phase: Phase::Running,
        size_min,
        size_max,
        record_broadcast_failures,
        track_confirmations,
        ticks: 0,
        cancelled: 0,
        untracked: 0,
        capacity: capacity as nat,
        permits_held: 0,
        broadcasting: Seq::empty(),
        waiting: Seq::empty(),
        confirming: Seq::empty(),
        results: Seq::empty(),
        metrics: initial_metrics(),
    }
}

/// The state after a submission tick was acted on: the tick is counted and
/// its submission, with a payload of `size` bytes, is handed to the broadcast.
pub open spec fn after_tick(s: PipelineView, now: u64, size: usize) -> PipelineView {
    PipelineView {
        ticks: s.ticks + 1,
        broadcasting: s.broadcasting.push(
            Attempt {
                id: (s.ticks + 1) as u64,
                submit_time: now,
                size,
                queued_at: 0,
                admission_wait: 0,
            },
        ),
        ..s
    }
}

/// The state after the signal to shut down: a running pipeline drains, or
/// stops at once where nothing is under way.
pub open spec fn after_shutdown(s: PipelineView) -> PipelineView {
    if s.phase is Running {
        settled(PipelineView { phase: Phase::Draining, ..s })
    } else {
        s
    }
}

/// The state after the broadcast of submission `id` failed: the submission
/// is over, the failure is counted, and a failed result is recorded where the
/// pipeline was made to record such. No permit is taken. An id that no
/// broadcast under way has changes nothing.
pub open spec fn after_broadcast_failed(s: PipelineView, id: u64, error: Seq<char>) -> PipelineView {
    if !holds(s.broadcasting, id) {
        s
    } else {
        let place = place_of(s.broadcasting, id);
        let attempt = s.broadcasting[place];
        settled(
            PipelineView {
                broadcasting: s.broadcasting.remove(place),
                metrics: with_broadcast_failure(s.metrics),
                results: if s.record_broadcast_failures {
                    s.results.push(failure_record(attempt.submit_time as nat, error))
                } else {
                    s.results
                },
                ..s
            },
        )
    }
}

/// The state after the broadcast of submission `id` was accepted at `now`:
/// the acceptance and the time it took are recorded, and the submission
/// takes a permit and awaits its confirmation, or waits for a permit where
/// none is free. Where confirmations are not followed up, the submission is
/// over: it takes no permit and leaves no result. An id that no broadcast
/// under way has changes nothing.
pub open spec fn after_broadcast_accepted(s: PipelineView, id: u64, now: u64) -> PipelineView {
    if !holds(s.broadcasting, id) {
        s
    } else {
        let place = place_of(s.broadcasting, id);
        let attempt = s.broadcasting[place];
        let metrics = with_checktx_latency(with_submit(s.metrics), span(attempt.submit_time, now));
        if !s.track_confirmations {
            settled(
                PipelineView {
                    broadcasting: s.broadcasting.remove(place),
                    metrics: with_cancellation(metrics),
                    untracked: s.untracked + 1,
                    ..s
                },
            )
        } else if s.permits_held < s.capacity {
            PipelineView {
                broadcasting: s.broadcasting.remove(place),
                metrics,
                permits_held: s.permits_held + 1,
                confirming: s.confirming.push(Attempt { queued_at: now, ..attempt }),
                ..s
            }
        } else {
            PipelineView {
                broadcasting: s.broadcasting.remove(place),
                metrics,
                waiting: s.waiting.push(Attempt { queued_at: now, ..attempt }),
                ..s
            }
        }
    }
}

/// What the caller is to do after an accepted broadcast: start the
/// confirmation where the submission got a permit, or stop where it was
/// the last thing under way while draining.
pub open spec fn accepted_action(s: PipelineView, id: u64, now: u64) -> Action {
    if holds(s.broadcasting, id) && s.track_confirmations && s.permits_held < s.capacity {
        Action::Confirm { id }
    } else {
        stop_or_idle(s, after_broadcast_accepted(s, id, now))
    }
}

/// The state after a confirmation that is over gave its permit back at
/// `now`: the permit goes to the submission that waited longest, whose wait
/// ends, or back to the pool where none waits.
pub open spec fn released(s: PipelineView, now: u64) -> PipelineView {
    if s.waiting.len() > 0 {
        let next = s.waiting[0];
        PipelineView {
            waiting: s.waiting.remove(0),
            confirming: s.confirming.push(
                Attempt { admission_wait: span(next.queued_at, now), ..next },
            ),
            ..s
        }
    } else {
        settled(PipelineView { permits_held: (s.permits_held - 1) as nat, ..s })
    }
}

/// What the caller is to do after a permit was given back: start the
/// confirmation of the submission that got it, or stop where that was the
/// last thing under way while draining.
pub open spec fn released_action(s: PipelineView, now: u64) -> Action {
    if s.waiting.len() > 0 {
        Action::Confirm { id: s.waiting[0].id }
    } else {
        stop_or_idle(s, released(s, now))
    }
}

/// The state after submission `id` was confirmed at `now`: a success is
/// recorded with the latency from submission to commit less the wait for
/// the permit, and the permit is given back. An id that no confirmation under
/// way has changes nothing.
pub open spec fn after_confirmed(
    s: PipelineView,
    id: u64,
    tx_hash: Seq<char>,
    height: i64,
    now: u64,
) -> PipelineView {
    if !holds(s.confirming, id) {
        s
    } else {
        let place = place_of(s.confirming, id);
        let attempt = s.confirming[place];
        let latency = end_to_end_latency(attempt.submit_time, now, attempt.admission_wait);
        released(
            PipelineView {
                confirming: s.confirming.remove(place),
                results: s.results.push(
                    success_record(
                        attempt.submit_time as nat,
                        now as nat,
                        latency as nat,
                        tx_hash,
                        0,
                        height as int,
                    ),
                ),
                metrics: with_confirm(s.metrics, latency, attempt.size),
                ..s
            },
            now,
        )
    }
}

/// The state after the confirmation of submission `id` failed: a failure is
/// recorded with the error's text, and the permit is given back. An id that
/// no confirmation under way has changes nothing.
pub open spec fn after_confirm_failed(
    s: PipelineView,
    id: u64,
    error: Seq<char>,
    now: u64,
) -> PipelineView {
    if !holds(s.confirming, id) {
        s
    } else {
        let place = place_of(s.confirming, id);
        let attempt = s.confirming[place];
        released(
            PipelineView {
                confirming: s.confirming.remove(place),
                results: s.results.push(failure_record(attempt.submit_time as nat, error)),
                metrics: with_confirm_failure(s.metrics),
                ..s
            },
            now,
        )
    }
}

/// The state after the wait for the confirmation of submission `id` was
/// given up: no result is recorded and no failure counted, and the permit is
/// given back. An id that no confirmation under way has changes nothing.
pub open spec fn after_cancelled(s: PipelineView, id: u64, now: u64) -> PipelineView {
    if !holds(s.confirming, id) {
        s
    } else {
        let place = place_of(s.confirming, id);
        released(
            PipelineView {
                confirming: s.confirming.remove(place),
                cancelled: s.cancelled + 1,
                metrics: with_cancellation(s.metrics),
                ..s
            },
            now,
        )
    }
}

/// What the caller is to do after the confirmation of submission `id` ended
/// in the state `s`.
pub open spec fn ended_action(s: PipelineView, id: u64, now: u64) -> Action {
    if !holds(s.confirming, id) {
        Action::Idle
    } else {
        released_action(
            PipelineView { confirming: s.confirming.remove(place_of(s.confirming, id)), ..s },
            now,
        )
    }
}

/// The state after `event`, where `size` is the size of the payload drawn
/// for a submission tick.
pub open spec fn next_state(s: PipelineView, event: Event, size: usize) -> PipelineView {
    match event {
        Event::SubmissionTick { now } => if s.phase is Running {
            after_tick(s, now, size)
        } else {
            s
        },
        Event::StatusTick => s,
        Event::BroadcastFailed { id, error } => after_broadcast_failed(s, id, error@),
        Event::BroadcastAccepted { id, now } => after_broadcast_accepted(s, id, now),
        Event::Confirmed { id, tx_hash, height, now } => after_confirmed(
            s,
            id,
            tx_hash@,
            height,
            now,
        ),
        Event::ConfirmFailed { id, error, now } => after_confirm_failed(s, id, error@, now),
        Event::Cancelled { id, now } => after_cancelled(s, id, now),
        Event::Shutdown => after_shutdown(s),
    }
}

/// What the caller is to do after `event`; `size` is as in [`next_state`].
/// The payload to broadcast is the one thing left open: it is random.
pub open spec fn is_next_action(s: PipelineView, event: Event, size: usize, action: Action) -> bool {
    match event {
        Event::SubmissionTick { now } => if s.phase is Running {
            action matches Action::Broadcast { id, payload } && id == s.ticks + 1 && payload.len()
                == size
        } else {
            action == Action::Idle
        },
        Event::StatusTick => action == if s.phase is Running {
            Action::Report { submitted: s.ticks as u64 }
        } else {
            Action::Idle
        },
        Event::BroadcastFailed { id, error } => action == stop_or_idle(
            s,
            next_state(s, event, size),
        ),
        Event::BroadcastAccepted { id, now } => action == accepted_action(s, id, now),
        Event::Confirmed { id, tx_hash, height, now } => action == ended_action(s, id, now),
        Event::ConfirmFailed { id, error, now } => action == ended_action(s, id, now),
        Event::Cancelled { id, now } => action == ended_action(s, id, now),
        Event::Shutdown => action == stop_or_idle(s, next_state(s, event, size)),
    }
}

/// Whether `event` can be taken in the state `s` with a payload of `size`
/// bytes drawn for a submission tick: the size is one that the bounds allow,
/// and the count of ticks has room for one more.
pub open spec fn can_take(s: PipelineView, event: Event, size: usize) -> bool {
    event is SubmissionTick ==> size_allowed(s.size_min, s.size_max, size) && s.ticks < u64::MAX
}

/// The state after the events `events` were taken one after the other, each
/// with the payload size drawn for it.
pub open spec fn state_after(s: PipelineView, events: Seq<(Event, usize)>) -> PipelineView
    decreases events.len(),
{
    if events.len() == 0 {
        s
    } else {
        next_state(state_after(s, events.drop_last()), events.last().0, events.last().1)
    }
}

/// Whether each of `events` can be taken in the state that the events before
/// it lead to.
pub open spec fn can_take_all(s: PipelineView, events: Seq<(Event, usize)>) -> bool
    decreases events.len(),
{
    events.len() > 0 ==> can_take_all(s, events.drop_last()) && can_take(
        state_after(s, events.drop_last()),
        events.last().0,
        events.last().1,
    )
}

/// `Stop` where the pipeline has just stopped, `Idle` otherwise.
pub open spec fn stop_or_idle(before: PipelineView, after: PipelineView) -> Action {
    if after.phase is Stopped && !(before.phase is Stopped) {
        Action::Stop
    } else {
        Action::Idle
    }
}

} // verus!

//! The submission-and-confirmation pipeline as a state machine.
//!
//! The pipeline decides; its caller acts. The caller hands in each event
//! (a tick of a timer, the outcome of a broadcast or of a confirmation, the
//! signal to shut down) and carries out the action that comes back.

pub mod laws;
pub mod model;

use crate::admission::AdmissionController;
use crate::config::LatencyMonitorError;
use crate::config::validate_blob_sizes;
use crate::pipeline::laws::lemma_place_unique;
use crate::pipeline::model::PipelineView;
use crate::pipeline::model::accepted_action;
use crate::pipeline::model::after_broadcast_accepted;
use crate::pipeline::model::after_broadcast_failed;
use crate::pipeline::model::after_cancelled;
use crate::pipeline::model::after_confirm_failed;
use crate::pipeline::model::after_confirmed;
use crate::pipeline::model::after_shutdown;
use crate::pipeline::model::after_tick;
use crate::pipeline::model::ended_action;
use crate::pipeline::model::holds;
use crate::pipeline::model::initial_state;
use crate::pipeline::model::inv;
use crate::pipeline::model::is_next_action;
use crate::pipeline::model::is_place_of;
use crate::pipeline::model::next_state;
use crate::pipeline::model::place_of;
use crate::pipeline::model::released;
use crate::pipeline::model::released_action;
use crate::pipeline::model::settled;
use crate::pipeline::model::span;
use crate::pipeline::model::stop_or_idle;
use crate::prometheus::Metrics;
use crate::prometheus::dec_in_flight;
use crate::prometheus::record_broadcast_failure;
use crate::prometheus::record_checktx_latency;
use crate::prometheus::record_confirm;
use crate::prometheus::record_confirm_failure;
use crate::prometheus::record_submit;
use crate::tx::TxResult;
use crate::tx::failure_record;
use crate::tx::generate_random_data;
use crate::tx::size_allowed;
use crate::tx::success_record;
use vstd::prelude::*;

verus! {

/// Where the pipeline stands between start and exit.
#[derive(Debug, Clone, Copy)]
pub enum Phase {
    /// Submissions are made at each tick.
    Running,
    /// No new submission is made; those under way are left to finish.
    Draining,
    /// Every submission has finished.
    Stopped,
}

/// One submission on its way through the pipeline.
#[derive(Debug, Clone, Copy)]
pub struct Attempt {
    /// The number of the tick that made it, counted from one.
    pub id: u64,
    /// The instant at which it was handed to the broadcast.
    pub submit_time: u64,
    /// The size of its payload in bytes.
    pub size: usize,
    /// The instant at which it began to wait for a permit, if it had to.
    pub queued_at: u64,
    /// How long it waited for a permit.
    pub admission_wait: u64,
}

/// What the pipeline is told.
#[derive(Debug)]
pub enum Event {
    /// The submission timer fired at the instant `now`.
    SubmissionTick { now: u64 },
    /// The status timer fired.
    StatusTick,
    /// The broadcast of submission `id` failed.
    BroadcastFailed { id: u64, error: String },
    /// The broadcast of submission `id` was accepted at the instant `now`.
    BroadcastAccepted { id: u64, now: u64 },
    /// Submission `id` was confirmed at the instant `now`.
    Confirmed { id: u64, tx_hash: String, height: i64, now: u64 },
    /// The ledger refused or failed to confirm submission `id`.
    ConfirmFailed { id: u64, error: String, now: u64 },
    /// The wait for the confirmation of submission `id` was given up.
    Cancelled { id: u64, now: u64 },
    /// The operator asked the monitor to stop.
    Shutdown,
}

/// What the pipeline asks its caller to do.
#[derive(Debug)]
pub enum Action {
    /// Nothing.
    Idle,
    /// Broadcast this payload as submission `id`.
    Broadcast { id: u64, payload: Vec<u8> },
    /// Start to await the confirmation of submission `id`, which now holds
    /// a permit.
    Confirm { id: u64 },
    /// Report how many submissions were made.
    Report { submitted: u64 },
    /// Every submission has finished: compute the statistics and exit.
    Stop,
}

/// The pipeline: its phase, the submissions under way, the permits, the
/// results so far and the metrics.
pub struct Pipeline {
    phase: Phase,
    size_min: usize,
    size_max: usize,
    record_broadcast_failures: bool,
    track_confirmations: bool,
    ticks: u64,
    cancelled: u64,
    untracked: u64,
    admission: AdmissionController,
    broadcasting: Vec<Attempt>,
    waiting: Vec<Attempt>,
    confirming: Vec<Attempt>,
    results: Vec<TxResult>,
    metrics: Metrics,
}

/// The span from `from` to `to`, zero where `to` is not later.
pub fn elapsed(from: u64, to: u64) -> (d: u64)
    ensures
        d == span(from, to),
{
    if to >= from {
        to - from
    } else {
        0
    }
}

/// Looks for the first submission with this id.
fn find(list: &Vec<Attempt>, id: u64) -> (r: Option<usize>)
    ensures
        match r {
            Some(i) => is_place_of(list@, id, i as int) && place_of(list@, id) == i && holds(
                list@,
                id,
            ),
            None => !holds(list@, id),
        },
{
    let mut i: usize = 0;
    while i < list.len()
        invariant
            i <= list@.len(),
            forall|j: int| 0 <= j < i ==> list@[j].id != id,
        decreases list@.len() - i,
    {
        if list[i].id == id {
            proof {
                lemma_place_unique(list@, id, i as int);
            }
            return Some(i);
        }
        i = i + 1;
    }
    None
}

impl View for Pipeline {
    type V = PipelineView;

    closed spec fn view(&self) -> PipelineView {
        PipelineView {
            phase: self.phase,
            size_min: self.size_min,
            size_max: self.size_max,
            record_broadcast_failures: self.record_broadcast_failures,
            track_confirmations: self.track_confirmations,
            ticks: self.ticks as nat,
            cancelled: self.cancelled as nat,
            untracked: self.untracked as nat,
            capacity: self.admission.capacity(),
            permits_held: self.admission.outstanding(),
            broadcasting: self.broadcasting@,
            waiting: self.waiting@,
            confirming: self.confirming@,
            results: self.results@.map_values(|r: TxResult| r@),
            metrics: self.metrics@,
        }
    }
}

impl Pipeline {
    /// The parts of the pipeline are well formed.
    pub closed spec fn parts_wf(&self) -> bool {
        self.admission.wf() && self.metrics.wf()
    }

    /// The pipeline is well formed: its parts are, and [`inv`] holds of it.
    pub open spec fn wf(&self) -> bool {
        self.parts_wf() && inv(self@)
    }

    /// A pipeline that is running, with nothing under way. The payload bounds
    /// are checked; `capacity` is the number of permits; with
    /// `record_broadcast_failures` a failed broadcast leaves a failed result,
    /// without it only a count in the metrics; without `track_confirmations`
    /// a submission is over once its broadcast is accepted.
    pub fn new(
        size_min: usize,
        size_max: usize,
        capacity: usize,
        record_broadcast_failures: bool,
        track_confirmations: bool,
    ) -> (r: Result<Pipeline, LatencyMonitorError>)
        ensures
            size_min < 1 <==> r matches Err(LatencyMonitorError::InvalidMinBlobSize),
            size_min >= 1 && size_max < size_min <==> r matches Err(
                LatencyMonitorError::InvalidBlobSizeRange,
            ),
            1 <= size_min <= size_max <==> r is Ok,
            r matches Ok(p) ==> p.wf() && p@ == initial_state(
                size_min,
                size_max,
                capacity,
                record_broadcast_failures,
                track_confirmations,
            ),
    {
        match validate_blob_sizes(size_min, size_max) {
            Err(e) => Err(e),
            Ok(_) => {
                let p = Pipeline {
                    phase: Phase::Running,
                    size_min,
                    size_max,
                    record_broadcast_failures,
                    track_confirmations,
                    ticks: 0,
                    cancelled: 0,
                    untracked: 0,
                    admission: AdmissionController::new(capacity),
                    broadcasting: Vec::new(),
                    waiting: Vec::new(),
                    confirming: Vec::new(),
                    results: Vec::new(),
                    metrics: Metrics::new(),
                };
                assert(p@.results =~= Seq::empty());
                Ok(p)
            },
        }
    }
    /// The phase the pipeline is in.
    pub fn phase(&self) -> (phase: Phase)
        ensures
            phase == self@.phase,
    {
        self.phase
    }

    /// Whether every submission has finished after the signal to shut down.
    pub fn is_stopped(&self) -> (stopped: bool)
        ensures
            stopped == (self@.phase is Stopped),
    {
        match self.phase {
            Phase::Stopped => true,
            _ => false,
        }
    }

    /// The number of submissions made so far.
    pub fn submitted(&self) -> (n: u64)
        ensures
            n == self@.ticks,
    {
        self.ticks
    }

    /// The number of permits that are held.
    pub fn permits_held(&self) -> (n: usize)
        ensures
            n == self@.permits_held,
    {
        self.admission.held()
    }

    /// The number of submissions under way: being broadcast, waiting for
    /// a permit, or awaiting confirmation.
    pub fn under_way(&self) -> (n: u64)
        requires
            self.wf(),
        ensures
            n == self@.broadcasting.len() + self@.waiting.len() + self@.confirming.len(),
    {
        assert(self@.broadcasting.len() + self@.waiting.len() + self@.confirming.len()
            <= self@.ticks);
        self.broadcasting.len() as u64 + self.waiting.len() as u64 + self.confirming.len() as u64
    }

    /// The results so far, in the order in which the attempts ended.
    pub fn results(&self) -> (results: &Vec<TxResult>)
        ensures
            results@.map_values(|r: TxResult| r@) == self@.results,
    {
        &self.results
    }

    /// The metrics.
    pub fn metrics(&self) -> (metrics: &Metrics)
        ensures
            metrics@ == self@.metrics,
            self.wf() ==> metrics.wf(),
    {
        &self.metrics
    }

    /// The submission timer fired. A running pipeline counts the tick, draws
    /// a payload and asks for its broadcast; otherwise nothing happens.
    pub fn on_submission_tick(&mut self, now: u64) -> (action: Action)
        requires
            old(self).wf(),
            old(self)@.ticks < u64::MAX,
        ensures
            final(self).wf(),
            !(old(self)@.phase is Running) ==> final(self)@ == old(self)@ && action
                == Action::Idle,
            old(self)@.phase is Running ==> (action matches Action::Broadcast { id, payload }
                && id == old(self)@.ticks + 1 && size_allowed(
                old(self)@.size_min,
                old(self)@.size_max,
                payload.len(),
            ) && final(self)@ == after_tick(old(self)@, now, payload.len())),
    {
        match self.phase {
            Phase::Running => {
                let (size, payload) = generate_random_data(self.size_min, self.size_max);
                self.ticks = self.ticks + 1;
                self.broadcasting.push(
                    Attempt { id: self.ticks, submit_time: now, size, queued_at: 0, admission_wait: 0 },
                );
                Action::Broadcast { id: self.ticks, payload }
            },
            _ => Action::Idle,
        }
    }

    /// The status timer fired. A running pipeline asks for a report of the
    /// number of submissions made.
    pub fn on_status_tick(&self) -> (action: Action)
        ensures
            action == if self@.phase is Running {
                Action::Report { submitted: self@.ticks as u64 }
            } else {
                Action::Idle
            },
    {
        match self.phase {
            Phase::Running => Action::Report { submitted: self.ticks },
            _ => Action::Idle,
        }
    }

    /// The operator asked the monitor to stop. A running pipeline makes no
    /// further submission; it stops at once where nothing is under way, and
    /// drains otherwise.
    pub fn on_shutdown(&mut self) -> (action: Action)
        requires
            old(self).wf(),
        ensures
            final(self).wf(),
            final(self)@ == after_shutdown(old(self)@),
            action == stop_or_idle(old(self)@, final(self)@),
    {
        match self.phase {
            Phase::Running => {
                if self.broadcasting.len() == 0 && self.waiting.len() == 0
                    && self.confirming.len() == 0 {
                    self.phase = Phase::Stopped;
                    Action::Stop
                } else {
                    self.phase = Phase::Draining;
                    Action::Idle
                }
            },
            _ => Action::Idle,
        }
    }
    /// The broadcast of submission `id` failed with the given error.
    pub fn on_broadcast_failed(&mut self, id: u64, error: String) -> (action: Action)
        requires
            old(self).wf(),
        ensures
            final(self).wf(),
            final(self)@ == after_broadcast_failed(old(self)@, id, error@),
            action == stop_or_idle(old(self)@, final(self)@),
    {
        match find(&self.broadcasting, id) {
            None => Action::Idle,
            Some(place) => {
                let attempt = self.broadcasting.remove(place);
                record_broadcast_failure(&mut self.metrics);
                if self.record_broadcast_failures {
                    self.results.push(TxResult::failure(attempt.submit_time, error));
                    assert(self@.results =~= old(self)@.results.push(
                        failure_record(attempt.submit_time as nat, error@),
                    ));
                }
                self.settle()
            },
        }
    }

    /// Moves a draining pipeline on to `Stopped` where nothing is under way.
    fn settle(&mut self) -> (action: Action)
        ensures
            final(self)@ == settled(old(self)@),
            final(self).parts_wf() == old(self).parts_wf(),
            action == stop_or_idle(old(self)@, final(self)@),
    {
        match self.phase {
            Phase::Draining => {
                if self.broadcasting.len() == 0 && self.waiting.len() == 0
                    && self.confirming.len() == 0 {
                    self.phase = Phase::Stopped;
                    Action::Stop
                } else {
                    Action::Idle
                }
            },
            _ => Action::Idle,
        }
    }
    /// The broadcast of submission `id` was accepted at the instant `now`.
    pub fn on_broadcast_accepted(&mut self, id: u64, now: u64) -> (action: Action)
        requires
            old(self).wf(),
        ensures
            final(self).wf(),
            final(self)@ == after_broadcast_accepted(old(self)@, id, now),
            action == accepted_action(old(self)@, id, now),
    {
        match find(&self.broadcasting, id) {
            None => Action::Idle,
            Some(place) => {
                let attempt = self.broadcasting.remove(place);
                record_submit(&mut self.metrics);
                record_checktx_latency(&mut self.metrics, elapsed(attempt.submit_time, now));
                let admitted = Attempt { queued_at: now, ..attempt };
                if !self.track_confirmations {
                    dec_in_flight(&mut self.metrics);
                    self.untracked = self.untracked + 1;
                    self.settle()
                } else if self.admission.try_acquire() {
                    self.confirming.push(admitted);
                    Action::Confirm { id }
                } else {
                    self.waiting.push(admitted);
                    Action::Idle
                }
            },
        }
    }

    /// Gives back the permit of a confirmation that is over: to the
    /// submission that waited longest, or to the pool.
    fn release_permit(&mut self, now: u64) -> (action: Action)
        requires
            old(self).parts_wf(),
            old(self)@.permits_held > 0,
        ensures
            final(self).parts_wf(),
            final(self)@ == released(old(self)@, now),
            action == released_action(old(self)@, now),
    {
        if self.waiting.len() > 0 {
            let next = self.waiting.remove(0);
            self.confirming.push(
                Attempt { admission_wait: elapsed(next.queued_at, now), ..next },
            );
            Action::Confirm { id: next.id }
        } else {
            self.admission.release();
            self.settle()
        }
    }

    /// Submission `id` was confirmed at the instant `now`, at the given
    /// height and under the given hash.
    pub fn on_confirmed(&mut self, id: u64, tx_hash: String, height: i64, now: u64) -> (action:
        Action)
        requires
            old(self).wf(),
        ensures
            final(self).wf(),
            final(self)@ == after_confirmed(old(self)@, id, tx_hash@, height, now),
            action == ended_action(old(self)@, id, now),
    {
        match find(&self.confirming, id) {
            None => Action::Idle,
            Some(place) => {
                let attempt = self.confirming.remove(place);
                let latency = elapsed(attempt.admission_wait, elapsed(attempt.submit_time, now));
                record_confirm(&mut self.metrics, latency, attempt.size);
                self.results.push(
                    TxResult::success(attempt.submit_time, now, latency, tx_hash, 0, height),
                );
                assert(self@.results =~= old(self)@.results.push(
                    success_record(
                        attempt.submit_time as nat,
                        now as nat,
                        latency as nat,
                        tx_hash@,
                        0,
                        height as int,
                    ),
                ));
                self.release_permit(now)
            },
        }
    }

    /// The confirmation of submission `id` failed with the given error.
    pub fn on_confirm_failed(&mut self, id: u64, error: String, now: u64) -> (action: Action)
        requires
            old(self).wf(),
        ensures
            final(self).wf(),
            final(self)@ == after_confirm_failed(old(self)@, id, error@, now),
            action == ended_action(old(self)@, id, now),
    {
        match find(&self.confirming, id) {
            None => Action::Idle,
            Some(place) => {
                let attempt = self.confirming.remove(place);
                record_confirm_failure(&mut self.metrics);
                self.results.push(TxResult::failure(attempt.submit_time, error));
                assert(self@.results =~= old(self)@.results.push(
                    failure_record(attempt.submit_time as nat, error@),
                ));
                self.release_permit(now)
            },
        }
    }

    /// The wait for the confirmation of submission `id` was given up: its
    /// outcome is not known, so it counts as neither success nor failure.
    pub fn on_cancelled(&mut self, id: u64, now: u64) -> (action: Action)
        requires
            old(self).wf(),
        ensures
            final(self).wf(),
            final(self)@ == after_cancelled(old(self)@, id, now),
            action == ended_action(old(self)@, id, now),
    {
        match find(&self.confirming, id) {
            None => Action::Idle,
            Some(place) => {
                let attempt = self.confirming.remove(place);
                dec_in_flight(&mut self.metrics);
                self.cancelled = self.cancelled + 1;
                self.release_permit(now)
            },
        }
    }
    /// Takes one event and says what the caller is to do. The size of a
    /// payload drawn for a submission tick is random within the bounds.
    pub fn step(&mut self, event: Event) -> (action: Action)
        requires
            old(self).wf(),
            event is SubmissionTick ==> old(self)@.ticks < u64::MAX,
        ensures
            final(self).wf(),
            exists|size: usize|
                size_allowed(old(self)@.size_min, old(self)@.size_max, size) && final(self)@
                    == next_state(old(self)@, event, size) && is_next_action(
                    old(self)@,
                    event,
                    size,
                    action,
                ),
    {
        match event {
            Event::SubmissionTick { now } => {
                let action = self.on_submission_tick(now);
                let ghost size = if action is Broadcast {
                    action->payload.len()
                } else {
                    self.size_min
                };
                assert(is_next_action(old(self)@, event, size, action));
                action
            },
            Event::StatusTick => {
                let action = self.on_status_tick();
                assert(is_next_action(old(self)@, event, self.size_min, action));
                action
            },
            Event::BroadcastFailed { id, error } => {
                let action = self.on_broadcast_failed(id, error);
                assert(is_next_action(old(self)@, event, self.size_min, action));
                action
            },
            Event::BroadcastAccepted { id, now } => {
                let action = self.on_broadcast_accepted(id, now);
                assert(is_next_action(old(self)@, event, self.size_min, action));
                action
            },
            Event::Confirmed { id, tx_hash, height, now } => {
                let action = self.on_confirmed(id, tx_hash, height, now);
                assert(is_next_action(old(self)@, event, self.size_min, action));
                action
            },
            Event::ConfirmFailed { id, error, now } => {
                let action = self.on_confirm_failed(id, error, now);
                assert(is_next_action(old(self)@, event, self.size_min, action));
                action
            },
            Event::Cancelled { id, now } => {
                let action = self.on_cancelled(id, now);
                assert(is_next_action(old(self)@, event, self.size_min, action));
                action
            },
            Event::Shutdown => {
                let action = self.on_shutdown();
                assert(is_next_action(old(self)@, event, self.size_min, action));
                action
            },
        }
    }
}

} // verus!

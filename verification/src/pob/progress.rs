//! Progress events and their throttling.
//!
//! Every stage of the pipeline describes what it does as a stream of
//! [`InstallProgress`] events. `InProgress` events may come in bursts, so a
//! [`ProgressThrottle`] lets at most one of them through per
//! [`PROGRESS_THROTTLE_MS`]; all other events always pass.
//!
//! Times are readings of a monotonic clock in milliseconds.

use vstd::prelude::*;
use vstd::string::StringExecFns;

verus! {

/// Minimum distance in milliseconds between two `InProgress` events of one task.
pub const PROGRESS_THROTTLE_MS: u64 = 100;

/// The stage of the pipeline that an event belongs to.
#[derive(Debug, Clone, Copy, PartialEq, Eq, Structural)]
pub enum InstallPhase {
    Downloading,
    Extracting,
    BackingUp,
    Moving,
    Restoring,
    Finalizing,
    Uninstalling,
    Preparing,
}

/// What a stage reports about itself.
#[derive(Debug)]
pub enum InstallStatus {
    /// The stage began. `total_size` is the amount of work, where it is known
    /// and not zero.
    Started { total_size: Option<u32> },
    /// `done` units out of `total` are finished.
    InProgress { done: u64, total: u64 },
    Completed,
    Failed { reason: String },
    Cancelled,
}

impl InstallStatus {
    /// A `Started` status never announces a total of zero.
    pub open spec fn wf(self) -> bool {
        self matches InstallStatus::Started { total_size: Some(n) } ==> n != 0
    }

    /// Whether the throttle applies to this status.
    pub open spec fn is_throttled(self) -> bool {
        self is InProgress
    }

    /// Whether this status ends a stage.
    pub open spec fn is_terminal(self) -> bool {
        self is Completed || self is Failed || self is Cancelled
    }

    /// The `Started` status of a stage with `total` units of work. The total
    /// is carried in 32 bits: its low 32 bits are announced, unless they are
    /// all zero.
    pub fn started(total: u64) -> (s: InstallStatus)
        ensures
            s == started_status(total),
            s.wf(),
    {
        InstallStatus::Started { total_size: announced_total(total) }
    }
}

impl Clone for InstallStatus {
    fn clone(&self) -> (r: Self)
        ensures
            r == *self,
    {
        match self {
            InstallStatus::Started { total_size } => InstallStatus::Started {
                total_size: *total_size,
            },
            InstallStatus::InProgress { done, total } => InstallStatus::InProgress {
                done: *done,
                total: *total,
            },
            InstallStatus::Completed => InstallStatus::Completed,
            InstallStatus::Failed { reason } => InstallStatus::Failed { reason: reason.clone() },
            InstallStatus::Cancelled => InstallStatus::Cancelled,
        }
    }
}

/// The low 32 bits of `total`, or `None` where they are zero.
pub open spec fn spec_announced_total(total: u64) -> Option<u32> {
    if total % 0x1_0000_0000 == 0 {
        None
    } else {
        Some((total % 0x1_0000_0000) as u32)
    }
}

/// The `Started` status that announces `total`.
pub open spec fn started_status(total: u64) -> InstallStatus {
    InstallStatus::Started { total_size: spec_announced_total(total) }
}

/// The low 32 bits of `total`, or `None` where they are zero.
pub fn announced_total(total: u64) -> (r: Option<u32>)
    ensures
        r == spec_announced_total(total),
{
    let low: u64 = total % 0x1_0000_0000;
    if low == 0 {
        None
    } else {
        Some(low as u32)
    }
}

/// One event of a task's stream.
#[derive(Debug)]
pub struct InstallProgress {
    pub task_id: String,
    pub phase: InstallPhase,
    pub status: InstallStatus,
}

impl InstallProgress {
    /// The event that tells `status` of `phase` for the task `task_id`.
    pub fn new(task_id: &str, phase: InstallPhase, status: InstallStatus) -> (p: Self)
        ensures
            p.task_id@ == task_id@,
            p.phase == phase,
            p.status == status,
    {
        InstallProgress { task_id: String::from_str(task_id), phase, status }
    }
}

impl Clone for InstallProgress {
    fn clone(&self) -> (r: Self)
        ensures
            r == *self,
    {
        InstallProgress {
            task_id: self.task_id.clone(),
            phase: self.phase,
            status: self.status.clone(),
        }
    }
}

/// Stamps the events of one task with its identifier. Whoever runs a
/// stage hands the events that it reports to the sink of their choice.
#[derive(Debug)]
pub struct InstallReporter {
    pub task_id: String,
}

impl Clone for InstallReporter {
    fn clone(&self) -> (r: Self)
        ensures
            r == *self,
    {
        InstallReporter { task_id: self.task_id.clone() }
    }
}

impl InstallReporter {
    /// The reporter of the task `task_id`.
    pub fn new(task_id: &str) -> (reporter: Self)
        ensures
            reporter.task_id@ == task_id@,
    {
        InstallReporter { task_id: String::from_str(task_id) }
    }

    /// The event that tells `status` of `phase` in the name of this
    /// reporter's task.
    pub fn report(&self, phase: InstallPhase, status: InstallStatus) -> (event: InstallProgress)
        ensures
            event.task_id@ == self.task_id@,
            event.phase == phase,
            event.status == status,
    {
        InstallProgress::new(self.task_id.as_str(), phase, status)
    }

    /// The identifier of the task.
    pub fn task_id(&self) -> (id: &str)
        ensures
            id@ == self.task_id@,
    {
        self.task_id.as_str()
    }
}

/// Whether an `InProgress` event offered at `now` is far enough from the
/// last one that passed.
pub open spec fn throttle_due(last: Option<u64>, now: u64) -> bool {
    match last {
        None => true,
        Some(t) => now - t >= PROGRESS_THROTTLE_MS,
    }
}

/// Whether `status`, offered at `now`, passes a throttle whose last
/// `InProgress` event passed at `last`.
pub open spec fn throttle_admits(last: Option<u64>, status: InstallStatus, now: u64) -> bool {
    !status.is_throttled() || throttle_due(last, now)
}

/// The time of the last `InProgress` event that passed, after `status` was
/// offered at `now`.
pub open spec fn throttle_after(last: Option<u64>, status: InstallStatus, now: u64) -> Option<u64> {
    if status.is_throttled() && throttle_due(last, now) {
        Some(now)
    } else {
        last
    }
}

/// The report of `done` units out of `total` that is due at `now`: there is
/// one if the throttle, whose last report passed at `last`, lets it pass.
pub open spec fn progress_report(last: Option<u64>, done: u64, total: u64, now: u64) -> Option<
    InstallStatus,
> {
    let status = InstallStatus::InProgress { done, total };
    if throttle_admits(last, status, now) {
        Some(status)
    } else {
        None
    }
}

/// Lets `InProgress` events through at most once per [`PROGRESS_THROTTLE_MS`].
#[derive(Debug, Clone, Copy)]
pub struct ProgressThrottle {
    /// When the last `InProgress` event passed; `None` before the first.
    pub last_emit: Option<u64>,
}

impl ProgressThrottle {
    /// A throttle that lets the first `InProgress` event through at once.
    pub fn new() -> (t: Self)
        ensures
            t.last_emit is None,
    {
        ProgressThrottle { last_emit: None }
    }

    /// A throttle for a stage that begins at `now`: its first `InProgress`
    /// event passes no sooner than one interval later.
    pub fn starting_at(now: u64) -> (t: Self)
        ensures
            t.last_emit == Some(now),
    {
        ProgressThrottle { last_emit: Some(now) }
    }

    /// Whether an `InProgress` event would pass at `now`.
    pub fn is_due(&self, now: u64) -> (due: bool)
        ensures
            due == throttle_due(self.last_emit, now),
    {
        match self.last_emit {
            None => true,
            Some(t) => now >= t && now - t >= PROGRESS_THROTTLE_MS,
        }
    }

    /// Offers `status` at time `now` and says whether it is to be emitted.
    /// Anything but `InProgress` always is, and leaves the throttle as it was.
    pub fn offer(&mut self, status: &InstallStatus, now: u64) -> (emit: bool)
        ensures
            emit == throttle_admits(old(self).last_emit, *status, now),
            final(self).last_emit == throttle_after(old(self).last_emit, *status, now),
    {
        match status {
            InstallStatus::InProgress { .. } => {
                if self.is_due(now) {
                    self.last_emit = Some(now);
                    true
                } else {
                    false
                }
            },
            _ => true,
        }
    }
}

/// The events that pass when `offers` are made, one after the other, to a
/// throttle whose last `InProgress` event passed at `last`. Each offer is a
/// time and a status.
pub open spec fn emitted(last: Option<u64>, offers: Seq<(u64, InstallStatus)>) -> Seq<
    (u64, InstallStatus),
>
    decreases offers.len(),
{
    if offers.len() == 0 {
        Seq::empty()
    } else {
        let (now, status) = offers[0];
        let rest = emitted(throttle_after(last, status, now), offers.drop_first());
        if throttle_admits(last, status, now) {
            seq![offers[0]] + rest
        } else {
            rest
        }
    }
}

/// The offers that the throttle does not apply to, in their order.
pub open spec fn unthrottled(offers: Seq<(u64, InstallStatus)>) -> Seq<(u64, InstallStatus)>
    decreases offers.len(),
{
    if offers.len() == 0 {
        Seq::empty()
    } else if offers[0].1.is_throttled() {
        unthrottled(offers.drop_first())
    } else {
        seq![offers[0]] + unthrottled(offers.drop_first())
    }
}

/// Any two `InProgress` events that pass the throttle are at least
/// [`PROGRESS_THROTTLE_MS`] apart, and each is that far from the event that
/// the throttle started with. This holds of every sequence of offers, even
/// one whose times go backwards.
pub proof fn lemma_in_progress_events_are_spaced(
    last: Option<u64>,
    offers: Seq<(u64, InstallStatus)>,
)
    ensures
        forall|k: int|
            0 <= k < emitted(last, offers).len() && (#[trigger] emitted(last, offers)[k]).1
                is InProgress ==> throttle_due(last, emitted(last, offers)[k].0),
        forall|i: int, j: int|
            0 <= i < j < emitted(last, offers).len() && (#[trigger] emitted(last, offers)[i]).1
                is InProgress && (#[trigger] emitted(last, offers)[j]).1 is InProgress
                ==> emitted(last, offers)[j].0 - emitted(last, offers)[i].0
                >= PROGRESS_THROTTLE_MS,
    decreases offers.len(),
{
    if offers.len() > 0 {
        let (now, status) = offers[0];
        let next = throttle_after(last, status, now);
        let rest = emitted(next, offers.drop_first());
        lemma_in_progress_events_are_spaced(next, offers.drop_first());
        let all = emitted(last, offers);
        if throttle_admits(last, status, now) {
            // What passed is the first offer and then what passed of the rest.
            assert forall|k: int| 0 < k < all.len() implies all[k] == rest[k - 1] by {}
        }
    }
}

/// No event other than `InProgress` is ever held back: those that pass the
/// throttle are, in order, exactly those that were offered.
pub proof fn lemma_other_events_always_pass(last: Option<u64>, offers: Seq<(u64, InstallStatus)>)
    ensures
        unthrottled(emitted(last, offers)) == unthrottled(offers),
    decreases offers.len(),
{
    if offers.len() > 0 {
        let (now, status) = offers[0];
        let next = throttle_after(last, status, now);
        let rest = emitted(next, offers.drop_first());
        lemma_other_events_always_pass(next, offers.drop_first());
        if throttle_admits(last, status, now) {
            let all = seq![offers[0]] + rest;
            assert(all.drop_first() == rest);
        }
    }
}

} // verus!

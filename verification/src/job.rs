//! Jobs, their statuses, and the instants that bound their runs.
use vstd::prelude::*;

verus! {

/// A naive (time-zone free) instant: whole seconds since 1970-01-01 00:00:00
/// and the nanoseconds past that second (at or above one second only within a
/// leap second). Instants are ordered as the pairs `(secs, nanos)` are,
/// lexicographically.
#[derive(Clone, Copy, Debug, PartialEq, Eq, Structural)]
pub struct JobTime {
    pub secs: i64,
    pub nanos: u32,
}

impl JobTime {
    /// `self` lies strictly before `other`.
    pub open spec fn precedes(self, other: JobTime) -> bool {
        self.secs < other.secs || (self.secs == other.secs && self.nanos < other.nanos)
    }

    /// Whether `self` lies strictly before `other`.
    pub fn is_before(&self, other: &JobTime) -> (r: bool)
        ensures
            r == self.precedes(*other),
    {
        self.secs < other.secs || (self.secs == other.secs && self.nanos < other.nanos)
    }
}

/// Where a job stands in its life: scheduled, running, or finished one way or
/// the other.
#[derive(Clone, Copy, Debug, PartialEq, Eq, Structural)]
pub enum EscalonJobStatus {
    Scheduled,
    Running,
    Done,
    Failed,
}

impl Default for EscalonJobStatus {
    /// A new job starts out scheduled.
    fn default() -> (r: EscalonJobStatus)
        ensures
            r == EscalonJobStatus::Scheduled,
    {
        EscalonJobStatus::Scheduled
    }
}

/// A job as the manager keeps it: the scheduler's id for it, its status, its
/// cron schedule and the instants before and after which it does not run.
#[derive(Debug)]
pub struct EscalonJob {
    pub job_id: u128,
    pub status: EscalonJobStatus,
    pub schedule: String,
    pub since: Option<JobTime>,
    pub until: Option<JobTime>,
}

impl EscalonJob {
    /// `self` and `other` agree field by field, the schedules as text.
    pub open spec fn same_as(self, other: EscalonJob) -> bool {
        &&& self.job_id == other.job_id
        &&& self.status == other.status
        &&& self.schedule@ == other.schedule@
        &&& self.since == other.since
        &&& self.until == other.until
    }

    /// `self` with its status replaced by `status`.
    pub open spec fn with_status(self, status: EscalonJobStatus) -> EscalonJob {
        EscalonJob { status: status, ..self }
    }
}

impl Clone for EscalonJob {
    fn clone(&self) -> (r: EscalonJob)
        ensures
            r == *self,
    {
        EscalonJob {
            job_id: self.job_id,
            status: self.status,
            schedule: self.schedule.clone(),
            since: self.since,
            until: self.until,
        }
    }
}

impl PartialEq for EscalonJob {
    fn eq(&self, other: &EscalonJob) -> (r: bool) {
        self.job_id == other.job_id && self.status == other.status && self.schedule
            == other.schedule && self.since == other.since && self.until == other.until
    }
}

impl vstd::std_specs::cmp::PartialEqSpecImpl for EscalonJob {
    open spec fn obeys_eq_spec() -> bool {
        true
    }

    open spec fn eq_spec(&self, other: &EscalonJob) -> bool {
        self.same_as(*other)
    }
}

impl Default for EscalonJob {
    /// The nil id, a scheduled status, an empty schedule and no bounds.
    fn default() -> (r: EscalonJob)
        ensures
            r.job_id == 0,
            r.status == EscalonJobStatus::Scheduled,
            r.schedule@ == Seq::<char>::empty(),
            r.since is None,
            r.until is None,
    {
        EscalonJob {
            job_id: 0,
            status: EscalonJobStatus::Scheduled,
            schedule: String::new(),
            since: None,
            until: None,
        }
    }
}

/// What a user hands the manager to add a job: its cron schedule and the
/// instants that bound its runs.
#[derive(Debug)]
pub struct NewEscalonJob {
    pub schedule: String,
    pub since: Option<JobTime>,
    pub until: Option<JobTime>,
}

impl Clone for NewEscalonJob {
    fn clone(&self) -> (r: NewEscalonJob)
        ensures
            r == *self,
    {
        NewEscalonJob { schedule: self.schedule.clone(), since: self.since, until: self.until }
    }
}

} // verus!

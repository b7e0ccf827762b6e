//! Properties that relate the manager's operations to one another.
use vstd::prelude::*;

use crate::actions::{
    added_job, first_with, rescheduled, has_job, jobs_without, lemma_first_with_found, lemma_first_with_is,
    lemma_first_with_push, lemma_first_with_update,
};
use crate::handler::{status_after_tick, tick_ends, tick_waits};
use crate::job::{EscalonJob, EscalonJobStatus, JobTime, NewEscalonJob};

verus! {

/// Adding a job under an id that no job has makes it the job that a lookup
/// of that id finds; the jobs already there keep being found as they were.
pub proof fn lemma_get_after_add(jobs: Seq<EscalonJob>, job_id: u128, new_job: NewEscalonJob, other: u128)
    requires
        !has_job(jobs, job_id),
    ensures
        has_job(jobs.push(added_job(job_id, new_job)), job_id),
        jobs.push(added_job(job_id, new_job))[first_with(jobs.push(added_job(job_id, new_job)), job_id)]
            == added_job(job_id, new_job),
        jobs.push(added_job(job_id, new_job))[first_with(jobs.push(added_job(job_id, new_job)), job_id)].status
            == EscalonJobStatus::Scheduled,
        has_job(jobs, other) ==> has_job(jobs.push(added_job(job_id, new_job)), other)
            && jobs.push(added_job(job_id, new_job))[first_with(jobs.push(added_job(job_id, new_job)), other)]
            == jobs[first_with(jobs, other)],
{
    lemma_first_with_push(jobs, added_job(job_id, new_job), job_id);
    lemma_first_with_push(jobs, added_job(job_id, new_job), other);
}

/// After removing an id, a lookup of it finds nothing, and a lookup of any
/// other id finds what it found before.
pub proof fn lemma_get_after_remove(jobs: Seq<EscalonJob>, id: u128, other: u128)
    requires
        other != id,
    ensures
        !has_job(jobs_without(jobs, id), id),
        has_job(jobs_without(jobs, id), other) == has_job(jobs, other),
        has_job(jobs, other) ==> jobs_without(jobs, id)[first_with(jobs_without(jobs, id), other)]
            == jobs[first_with(jobs, other)],
    decreases jobs.len(),
{
    let kept = jobs_without(jobs, id);
    reveal(Seq::filter);
    if jobs.len() == 0 {
        assert(kept =~= jobs);
    } else {
        let prefix = jobs.drop_last();
        let last = jobs.last();
        lemma_get_after_remove(prefix, id, other);
        assert(jobs =~= prefix.push(last));
        lemma_first_with_push(prefix, last, other);
        lemma_first_with_push(prefix, last, id);
        if last.job_id == id {
            assert(kept =~= jobs_without(prefix, id));
        } else {
            assert(kept =~= jobs_without(prefix, id).push(last));
            lemma_first_with_push(jobs_without(prefix, id), last, id);
            lemma_first_with_push(jobs_without(prefix, id), last, other);
        }
    }
}

/// Removing an id that no job has leaves the jobs as they were.
pub proof fn lemma_remove_absent(jobs: Seq<EscalonJob>, id: u128)
    requires
        !has_job(jobs, id),
    ensures
        jobs_without(jobs, id) == jobs,
    decreases jobs.len(),
{
    reveal(Seq::filter);
    if jobs.len() > 0 {
        let prefix = jobs.drop_last();
        assert(jobs =~= prefix.push(jobs.last()));
        lemma_first_with_push(prefix, jobs.last(), id);
        lemma_remove_absent(prefix, id);
        assert(jobs_without(jobs, id) =~= jobs);
    }
}

/// After the status of an id is set, a lookup of it finds the job with that
/// status and otherwise unchanged; lookups of other ids find what they found
/// before, and the number of jobs stays.
pub proof fn lemma_get_after_update_status(jobs: Seq<EscalonJob>, id: u128, status: EscalonJobStatus, other: u128)
    requires
        has_job(jobs, id),
        other != id,
    ensures
        ({
            let updated = jobs.update(first_with(jobs, id), jobs[first_with(jobs, id)].with_status(status));
            &&& updated.len() == jobs.len()
            &&& has_job(updated, id)
            &&& updated[first_with(updated, id)] == jobs[first_with(jobs, id)].with_status(status)
            &&& has_job(updated, other) == has_job(jobs, other)
            &&& has_job(jobs, other) ==> updated[first_with(updated, other)] == jobs[first_with(jobs, other)]
        }),
{
    lemma_first_with_found(jobs, id);
    let i = first_with(jobs, id);
    let job = jobs[i].with_status(status);
    let updated = jobs.update(i, job);
    lemma_first_with_update(jobs, id, i, job);
    assert forall|j: int| 0 <= j < jobs.len() implies #[trigger] updated[j].job_id == jobs[j].job_id by {
        if j != i {
            assert(updated[j] == jobs[j]);
        }
    }
    if has_job(jobs, other) {
        lemma_first_with_found(jobs, other);
        let k = first_with(jobs, other);
        assert(k != i);
        assert(updated[k] == jobs[k]);
        assert forall|j: int| 0 <= j < k implies #[trigger] updated[j].job_id != other by {
            assert(updated[j].job_id == jobs[j].job_id);
        }
        lemma_first_with_is(updated, other, k);
    } else {
        assert forall|j: int| 0 <= j < updated.len() implies #[trigger] updated[j].job_id != other by {
            assert(updated[j].job_id == jobs[j].job_id);
        }
    }
}

/// After a tick that does not wait, a lookup of the job finds it with the
/// status the tick gives it: done where its `until` lies before the tick,
/// running where it was scheduled, else as it was; no other job changes.
pub proof fn lemma_get_after_tick(jobs: Seq<EscalonJob>, id: u128, new_job: NewEscalonJob, next_tick: JobTime, other: u128)
    requires
        has_job(jobs, id),
        !tick_waits(jobs[first_with(jobs, id)].status, new_job.since, next_tick),
        other != id,
    ensures
        ({
            let job = jobs[first_with(jobs, id)];
            let status = status_after_tick(job.status, new_job.until, next_tick);
            let after = jobs.update(first_with(jobs, id), job.with_status(status));
            &&& has_job(after, id)
            &&& after[first_with(after, id)].status == status
            &&& tick_ends(new_job.until, next_tick) ==> after[first_with(after, id)].status == EscalonJobStatus::Done
            &&& has_job(after, other) == has_job(jobs, other)
            &&& has_job(jobs, other) ==> after[first_with(after, other)] == jobs[first_with(jobs, other)]
        }),
{
    let job = jobs[first_with(jobs, id)];
    lemma_get_after_update_status(jobs, id, status_after_tick(job.status, new_job.until, next_tick), other);
}

/// A tick that does not wait never leaves a job scheduled, and never brings a
/// done or failed job back: it stays done or failed.
pub proof fn lemma_tick_moves_forward(status: EscalonJobStatus, until: Option<JobTime>, next_tick: JobTime)
    ensures
        status_after_tick(status, until, next_tick) != EscalonJobStatus::Scheduled,
        status == EscalonJobStatus::Done ==> status_after_tick(status, until, next_tick) == EscalonJobStatus::Done,
        status == EscalonJobStatus::Failed ==> (status_after_tick(status, until, next_tick) == EscalonJobStatus::Failed
            || status_after_tick(status, until, next_tick) == EscalonJobStatus::Done),
        tick_ends(until, next_tick) ==> status_after_tick(status, until, next_tick) == EscalonJobStatus::Done,
{
}

/// The order of instants is a strict total order.
pub proof fn lemma_job_time_order(a: JobTime, b: JobTime, c: JobTime)
    ensures
        !a.precedes(a),
        a.precedes(b) ==> !b.precedes(a),
        a.precedes(b) && b.precedes(c) ==> a.precedes(c),
        a.precedes(b) || b.precedes(a) || a == b,
{
}

/// The job that `add_job` creates carries the scheduler's id, starts out
/// scheduled, and takes the schedule and both bounds of the definition as
/// given, whatever they are.
pub proof fn lemma_added_job_takes_the_definition(job_id: u128, new_job: NewEscalonJob)
    ensures
        added_job(job_id, new_job).job_id == job_id,
        added_job(job_id, new_job).status == EscalonJobStatus::Scheduled,
        added_job(job_id, new_job).schedule@ == new_job.schedule@,
        added_job(job_id, new_job).since == new_job.since,
        added_job(job_id, new_job).until == new_job.until,
{
}

/// Rescheduling keeps the job's id and status and takes the schedule and
/// both bounds of the new definition unconditionally: a bound the new
/// definition leaves out is gone.
pub proof fn lemma_rescheduled_takes_the_definition(job: EscalonJob, new_job: NewEscalonJob)
    ensures
        rescheduled(job, new_job).job_id == job.job_id,
        rescheduled(job, new_job).status == job.status,
        rescheduled(job, new_job).schedule@ == new_job.schedule@,
        rescheduled(job, new_job).since == new_job.since,
        rescheduled(job, new_job).until == new_job.until,
{
}

/// Setting a status changes the status and nothing else.
pub proof fn lemma_with_status_changes_only_the_status(job: EscalonJob, status: EscalonJobStatus)
    ensures
        job.with_status(status).status == status,
        job.with_status(status).job_id == job.job_id,
        job.with_status(status).schedule == job.schedule,
        job.with_status(status).since == job.since,
        job.with_status(status).until == job.until,
        job.with_status(job.status) == job,
{
}

/// Two jobs are equal exactly when they agree on every field: jobs that
/// differ in any field, their statuses among them, are not equal.
pub proof fn lemma_jobs_equal_field_by_field(a: EscalonJob, b: EscalonJob)
    ensures
        a.same_as(b) ==> a.job_id == b.job_id && a.status == b.status && a.schedule@ == b.schedule@
            && a.since == b.since && a.until == b.until,
        a.job_id == b.job_id && a.status == b.status && a.schedule@ == b.schedule@ && a.since == b.since
            && a.until == b.until ==> a.same_as(b),
        a.status != b.status ==> !a.same_as(b),
        a.same_as(a),
        a.same_as(b) == b.same_as(a),
{
}

/// A tick waits only for a scheduled job whose `since` lies after the tick:
/// it does wait for such a job, and never for a job that is not scheduled,
/// that has no `since`, or whose `since` is at or before the tick.
pub proof fn lemma_tick_waits_only_before_since(status: EscalonJobStatus, since: Option<JobTime>, next_tick: JobTime)
    ensures
        status != EscalonJobStatus::Scheduled ==> !tick_waits(status, since, next_tick),
        since is None ==> !tick_waits(status, since, next_tick),
        since is Some && !next_tick.precedes(since->0) ==> !tick_waits(status, since, next_tick),
        status == EscalonJobStatus::Scheduled && since is Some && next_tick.precedes(since->0)
            ==> tick_waits(status, since, next_tick),
{
}

/// A tick ends a job exactly when the job has an `until` that lies strictly
/// before the tick.
pub proof fn lemma_tick_ends_only_after_until(until: Option<JobTime>, next_tick: JobTime)
    ensures
        until is None ==> !tick_ends(until, next_tick),
        until is Some && until->0.precedes(next_tick) ==> tick_ends(until, next_tick),
        until is Some && !until->0.precedes(next_tick) ==> !tick_ends(until, next_tick),
{
}

/// After a tick that does not wait: a job the tick ends is done; otherwise a
/// scheduled job is running and any other job keeps its status.
pub proof fn lemma_status_after_tick_cases(status: EscalonJobStatus, until: Option<JobTime>, next_tick: JobTime)
    ensures
        tick_ends(until, next_tick) ==> status_after_tick(status, until, next_tick) == EscalonJobStatus::Done,
        !tick_ends(until, next_tick) && status == EscalonJobStatus::Scheduled
            ==> status_after_tick(status, until, next_tick) == EscalonJobStatus::Running,
        !tick_ends(until, next_tick) && status != EscalonJobStatus::Scheduled
            ==> status_after_tick(status, until, next_tick) == status,
{
}

/// An instant lies before another when its seconds are fewer, or its seconds
/// are the same and its nanoseconds fewer; never otherwise.
pub proof fn lemma_precedes_by_seconds_then_nanos(a: JobTime, b: JobTime)
    ensures
        a.secs < b.secs ==> a.precedes(b),
        a.secs == b.secs && a.nanos < b.nanos ==> a.precedes(b),
        a.secs > b.secs ==> !a.precedes(b),
        a.secs == b.secs && a.nanos >= b.nanos ==> !a.precedes(b),
{
}

} // verus!

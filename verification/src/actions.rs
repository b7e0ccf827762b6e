//! What the manager does with the jobs it keeps: look them up, add, remove,
//! and change them.
use vstd::prelude::*;

use crate::job::{EscalonJob, EscalonJobStatus, NewEscalonJob};
use crate::manager::EscalonJobsManager;

verus! {

/// Some job in `jobs` has the id `id`.
pub open spec fn has_job(jobs: Seq<EscalonJob>, id: u128) -> bool {
    exists|i: int| 0 <= i < jobs.len() && #[trigger] jobs[i].job_id == id
}

/// `i` is the position of the first job in `jobs` with the id `id`.
pub open spec fn is_first_with(jobs: Seq<EscalonJob>, id: u128, i: int) -> bool {
    &&& 0 <= i < jobs.len()
    &&& jobs[i].job_id == id
    &&& forall|j: int| 0 <= j < i ==> #[trigger] jobs[j].job_id != id
}

/// The position of the first job in `jobs` with the id `id` (meaningful where
/// there is one).
pub open spec fn first_with(jobs: Seq<EscalonJob>, id: u128) -> int {
    choose|i: int| is_first_with(jobs, id, i)
}

/// `jobs` without the jobs that have the id `id`, the others in their order.
pub open spec fn jobs_without(jobs: Seq<EscalonJob>, id: u128) -> Seq<EscalonJob> {
    jobs.filter(|j: EscalonJob| j.job_id != id)
}

/// The job that `job` becomes when `new_job` replaces its schedule and bounds.
pub open spec fn rescheduled(job: EscalonJob, new_job: NewEscalonJob) -> EscalonJob {
    EscalonJob { schedule: new_job.schedule, since: new_job.since, until: new_job.until, ..job }
}

/// The job that adding `new_job` under the id `job_id` creates: scheduled,
/// with the schedule and bounds of `new_job`.
pub open spec fn added_job(job_id: u128, new_job: NewEscalonJob) -> EscalonJob {
    EscalonJob {
        job_id: job_id,
        status: EscalonJobStatus::Scheduled,
        schedule: new_job.schedule,
        since: new_job.since,
        until: new_job.until,
    }
}

/// A position found by scanning from the front is the first one.
pub proof fn lemma_first_with_is(jobs: Seq<EscalonJob>, id: u128, i: int)
    requires
        is_first_with(jobs, id, i),
    ensures
        first_with(jobs, id) == i,
{
    let k = first_with(jobs, id);
    assert(is_first_with(jobs, id, k));
    if k < i {
        assert(jobs[k].job_id == id);
    } else if k > i {
        assert(jobs[i].job_id == id);
    }
}

/// Where some job has the id, a first one does.
pub proof fn lemma_first_with_exists(jobs: Seq<EscalonJob>, id: u128, k: int)
    requires
        0 <= k < jobs.len(),
        jobs[k].job_id == id,
    ensures
        is_first_with(jobs, id, first_with(jobs, id)),
        first_with(jobs, id) <= k,
    decreases k,
{
    if forall|j: int| 0 <= j < k ==> #[trigger] jobs[j].job_id != id {
        assert(is_first_with(jobs, id, k));
        lemma_first_with_is(jobs, id, k);
    } else {
        let j = choose|j: int| 0 <= j < k && #[trigger] jobs[j].job_id == id;
        lemma_first_with_exists(jobs, id, j);
    }
}

/// Where some job has the id, `first_with` finds the first one.
pub proof fn lemma_first_with_found(jobs: Seq<EscalonJob>, id: u128)
    requires
        has_job(jobs, id),
    ensures
        is_first_with(jobs, id, first_with(jobs, id)),
{
    let k = choose|k: int| 0 <= k < jobs.len() && #[trigger] jobs[k].job_id == id;
    lemma_first_with_exists(jobs, id, k);
}

/// Changing the first job with an id, keeping its id, keeps it first.
pub proof fn lemma_first_with_update(jobs: Seq<EscalonJob>, id: u128, i: int, job: EscalonJob)
    requires
        is_first_with(jobs, id, i),
        job.job_id == id,
    ensures
        has_job(jobs.update(i, job), id),
        is_first_with(jobs.update(i, job), id, i),
        first_with(jobs.update(i, job), id) == i,
{
    let updated = jobs.update(i, job);
    assert(updated[i].job_id == id);
    assert forall|j: int| 0 <= j < i implies #[trigger] updated[j].job_id != id by {
        assert(updated[j] == jobs[j]);
    }
    lemma_first_with_is(updated, id, i);
}

/// Appending a job keeps the first job of every id that was already there,
/// and makes the appended job the first of its id where it was not.
pub proof fn lemma_first_with_push(jobs: Seq<EscalonJob>, job: EscalonJob, id: u128)
    ensures
        has_job(jobs.push(job), id) == (has_job(jobs, id) || job.job_id == id),
        has_job(jobs, id) ==> first_with(jobs.push(job), id) == first_with(jobs, id)
            && jobs.push(job)[first_with(jobs, id)] == jobs[first_with(jobs, id)],
        !has_job(jobs, id) && job.job_id == id ==> first_with(jobs.push(job), id) == jobs.len(),
{
    let pushed = jobs.push(job);
    if has_job(jobs, id) {
        lemma_first_with_found(jobs, id);
        let k = first_with(jobs, id);
        assert(pushed[k] == jobs[k]);
        assert forall|j: int| 0 <= j < k implies #[trigger] pushed[j].job_id != id by {
            assert(pushed[j] == jobs[j]);
        }
        lemma_first_with_is(pushed, id, k);
    } else if job.job_id == id {
        let n = jobs.len() as int;
        assert(pushed[n] == job);
        assert forall|j: int| 0 <= j < n implies #[trigger] pushed[j].job_id != id by {
            assert(pushed[j] == jobs[j]);
        }
        lemma_first_with_is(pushed, id, n);
    } else {
        assert forall|j: int| 0 <= j < pushed.len() implies #[trigger] pushed[j].job_id != id by {
            if j < jobs.len() {
                assert(pushed[j] == jobs[j]);
            }
        }
    }
}

impl<T> EscalonJobsManager<T> {
    /// The position of the first job with the id `id`, if any.
    fn find_index(&self, id: u128) -> (r: Option<usize>)
        ensures
            match r {
                Some(i) => is_first_with(self@, id, i as int) && first_with(self@, id) == i,
                None => !has_job(self@, id),
            },
    {
        let mut i: usize = 0;
        while i < self.jobs.len()
            invariant
                i <= self.jobs.len(),
                forall|j: int| 0 <= j < i ==> #[trigger] self.jobs@[j].job_id != id,
            decreases self.jobs.len() - i,
        {
            if self.jobs[i].job_id == id {
                proof {
                    lemma_first_with_is(self@, id, i as int);
                }
                return Some(i);
            }
            i = i + 1;
        }
        None
    }

    /// A copy of the first job with the id `id`, or `None` where no job has it.
    pub fn get_job(&self, id: u128) -> (r: Option<EscalonJob>)
        ensures
            match r {
                Some(job) => has_job(self@, id) && job == self@[first_with(self@, id)],
                None => !has_job(self@, id),
            },
    {
        match self.find_index(id) {
            Some(i) => Some(self.jobs[i].clone()),
            None => None,
        }
    }

    /// A copy of all the jobs, in their order.
    pub fn get_jobs(&self) -> (r: Vec<EscalonJob>)
        ensures
            r@ == self@,
    {
        let mut out: Vec<EscalonJob> = Vec::new();
        let mut i: usize = 0;
        while i < self.jobs.len()
            invariant
                i <= self.jobs.len(),
                out@ == self.jobs@.take(i as int),
            decreases self.jobs.len() - i,
        {
            out.push(self.jobs[i].clone());
            proof {
                assert(out@ =~= self.jobs@.take(i + 1));
            }
            i = i + 1;
        }
        proof {
            assert(self.jobs@.take(self.jobs.len() as int) =~= self.jobs@);
        }
        out
    }

    /// How many jobs the manager keeps.
    pub fn count(&self) -> (r: usize)
        ensures
            r == self@.len(),
    {
        self.jobs.len()
    }

    /// Adds, at the end, a scheduled job with the id the scheduler gave it and
    /// the schedule and bounds of `new_job`; returns a copy of it.
    pub fn add_job(&mut self, job_id: u128, new_job: NewEscalonJob) -> (r: EscalonJob)
        ensures
            r == added_job(job_id, new_job),
            r.job_id == job_id,
            r.status == EscalonJobStatus::Scheduled,
            r.schedule@ == new_job.schedule@,
            r.since == new_job.since,
            r.until == new_job.until,
            final(self)@ == old(self)@.push(r),
            final(self).context == old(self).context,
            final(self).id == old(self).id,
            final(self).addr == old(self).addr,
            final(self).port == old(self).port,
    {
        let es_job = EscalonJob {
            job_id: job_id,
            status: EscalonJobStatus::Scheduled,
            schedule: new_job.schedule,
            since: new_job.since,
            until: new_job.until,
        };
        let out = es_job.clone();
        self.jobs.push(es_job);
        out
    }

    /// Drops every job with the id `id`; the others keep their order.
    pub fn remove_job(&mut self, id: u128)
        ensures
            final(self)@ == jobs_without(old(self)@, id),
            final(self).context == old(self).context,
            final(self).id == old(self).id,
            final(self).addr == old(self).addr,
            final(self).port == old(self).port,
    {
        let mut kept: Vec<EscalonJob> = Vec::new();
        let mut i: usize = 0;
        while i < self.jobs.len()
            invariant
                i <= self.jobs.len(),
                kept@ == jobs_without(self.jobs@.take(i as int), id),
            decreases self.jobs.len() - i,
        {
            let ghost next = self.jobs@.take(i + 1);
            proof {
                assert(next.drop_last() =~= self.jobs@.take(i as int));
                assert(next.last() == self.jobs@[i as int]);
                reveal(Seq::filter);
            }
            if self.jobs[i].job_id != id {
                kept.push(self.jobs[i].clone());
            }
            proof {
                assert(kept@ =~= jobs_without(next, id));
            }
            i = i + 1;
        }
        proof {
            assert(self.jobs@.take(self.jobs.len() as int) =~= self.jobs@);
        }
        self.jobs = kept;
    }

    /// The first job with the id `id` as `new_job` would reschedule it: its
    /// schedule and bounds replaced, its id and status kept. The jobs kept
    /// are not changed.
    pub fn update_job(&self, id: u128, new_job: &NewEscalonJob) -> (r: EscalonJob)
        requires
            has_job(self@, id),
        ensures
            r == rescheduled(self@[first_with(self@, id)], *new_job),
            r.job_id == self@[first_with(self@, id)].job_id,
            r.status == self@[first_with(self@, id)].status,
            r.schedule@ == new_job.schedule@,
            r.since == new_job.since,
            r.until == new_job.until,
    {
        let i = self.find_index(id).unwrap();
        let mut job = self.jobs[i].clone();
        job.schedule = new_job.schedule.clone();
        job.since = new_job.since;
        job.until = new_job.until;
        job
    }

    /// Sets the status of the first job with the id `id`; returns a copy of
    /// that job as it now is.
    pub fn update_status(&mut self, id: u128, status: EscalonJobStatus) -> (r: EscalonJob)
        requires
            has_job(old(self)@, id),
        ensures
            r == old(self)@[first_with(old(self)@, id)].with_status(status),
            r.status == status,
            r.job_id == old(self)@[first_with(old(self)@, id)].job_id,
            r.schedule == old(self)@[first_with(old(self)@, id)].schedule,
            r.since == old(self)@[first_with(old(self)@, id)].since,
            r.until == old(self)@[first_with(old(self)@, id)].until,
            final(self)@ == old(self)@.update(first_with(old(self)@, id), r),
            final(self).context == old(self).context,
            final(self).id == old(self).id,
            final(self).addr == old(self).addr,
            final(self).port == old(self).port,
    {
        let i = self.find_index(id).unwrap();
        let mut job = self.jobs[i].clone();
        job.status = status;
        let out = job.clone();
        self.jobs.set(i, job);
        out
    }
}

} // verus!

//! What the manager decides when the scheduler fires a job, and when a run of
//! a job comes back.
use vstd::prelude::*;

use crate::actions::{first_with, has_job, lemma_first_with_found, lemma_first_with_update};
use crate::job::{EscalonJob, EscalonJobStatus, JobTime, NewEscalonJob};
use crate::manager::EscalonJobsManager;

verus! {

/// What is left to do after a tick of a job, in this order: report the job
/// as it was marked running, start a run of it, take it out of the scheduler
/// and the manager, report the job as it was marked done.
#[derive(Debug)]
pub struct TickPlan {
    pub started: Option<EscalonJob>,
    pub run: bool,
    pub remove: bool,
    pub ended: Option<EscalonJob>,
}

/// A scheduled job whose `since` lies after the tick waits for a later tick.
pub open spec fn tick_waits(status: EscalonJobStatus, since: Option<JobTime>, next_tick: JobTime) -> bool {
    &&& status == EscalonJobStatus::Scheduled
    &&& since is Some
    &&& next_tick.precedes(since->0)
}

/// A job whose `until` lies before the tick is over.
pub open spec fn tick_ends(until: Option<JobTime>, next_tick: JobTime) -> bool {
    &&& until is Some
    &&& until->0.precedes(next_tick)
}

/// The status a job has after a tick that does not wait: done where the tick
/// ends it, running where it was scheduled, else as it was.
pub open spec fn status_after_tick(status: EscalonJobStatus, until: Option<JobTime>, next_tick: JobTime) -> EscalonJobStatus {
    if tick_ends(until, next_tick) {
        EscalonJobStatus::Done
    } else if status == EscalonJobStatus::Scheduled {
        EscalonJobStatus::Running
    } else {
        status
    }
}

impl TickPlan {
    /// Nothing to do.
    pub open spec fn is_idle(self) -> bool {
        &&& self.started is None
        &&& !self.run
        &&& !self.remove
        &&& self.ended is None
    }
}

impl<T> EscalonJobsManager<T> {
    /// Handles a tick of the job `job_id`, defined by `new_job`, whose next
    /// run the scheduler has set at `next_tick`. A scheduled job whose `since`
    /// lies after the tick is left alone. Otherwise a scheduled job is marked
    /// running and run, a running job is run again, a done or failed job is
    /// removed; and a job whose `until` lies before the tick is marked done.
    pub fn status_handler(&mut self, job_id: u128, new_job: &NewEscalonJob, next_tick: JobTime) -> (plan: TickPlan)
        requires
            has_job(old(self)@, job_id),
        ensures
            ({
                let i = first_with(old(self)@, job_id);
                let job = old(self)@[i];
                if tick_waits(job.status, new_job.since, next_tick) {
                    &&& final(self)@ == old(self)@
                    &&& plan.is_idle()
                } else {
                    &&& plan.run == (job.status == EscalonJobStatus::Scheduled || job.status == EscalonJobStatus::Running)
                    &&& plan.remove == (job.status == EscalonJobStatus::Done || job.status == EscalonJobStatus::Failed)
                    &&& plan.started == (if job.status == EscalonJobStatus::Scheduled {
                        Some(job.with_status(EscalonJobStatus::Running))
                    } else {
                        None
                    })
                    &&& plan.ended == (if tick_ends(new_job.until, next_tick) {
                        Some(job.with_status(EscalonJobStatus::Done))
                    } else {
                        None
                    })
                    &&& final(self)@ == old(self)@.update(
                        i,
                        job.with_status(status_after_tick(job.status, new_job.until, next_tick)),
                    )
                }
            }),
            ({
                let job = old(self)@[first_with(old(self)@, job_id)];
                job.status == EscalonJobStatus::Scheduled && (new_job.since is None
                    || !next_tick.precedes(new_job.since->0)) ==> plan.run && plan.started is Some
                    && plan.started->0.status == EscalonJobStatus::Running
            }),
            ({
                let job = old(self)@[first_with(old(self)@, job_id)];
                job.status == EscalonJobStatus::Scheduled && new_job.since is Some
                    && next_tick.precedes(new_job.since->0) ==> plan.is_idle() && final(self)@ == old(self)@
            }),
            ({
                let job = old(self)@[first_with(old(self)@, job_id)];
                !(job.status == EscalonJobStatus::Scheduled && new_job.since is Some
                    && next_tick.precedes(new_job.since->0)) && new_job.until is Some
                    && new_job.until->0.precedes(next_tick) ==> plan.ended is Some
                    && plan.ended->0.status == EscalonJobStatus::Done
            }),
            final(self).context == old(self).context,
            final(self).id == old(self).id,
            final(self).addr == old(self).addr,
            final(self).port == old(self).port,
    {
        let ghost i = first_with(old(self)@, job_id);
        let ghost job = old(self)@[i];
        proof {
            lemma_first_with_found(old(self)@, job_id);
        }
        let status = self.get_job(job_id).unwrap().status;
        let mut plan = TickPlan { started: None, run: false, remove: false, ended: None };
        match status {
            EscalonJobStatus::Scheduled => {
                if let Some(since) = new_job.since {
                    if next_tick.is_before(&since) {
                        return plan;
                    }
                }
                if self.get_job(job_id).is_some() {
                    let running = self.update_status(job_id, EscalonJobStatus::Running);
                    plan.started = Some(running);
                }
                plan.run = true;
            },
            EscalonJobStatus::Running => {
                plan.run = true;
            },
            EscalonJobStatus::Done | EscalonJobStatus::Failed => {
                if self.get_job(job_id).is_some() {
                    plan.remove = true;
                }
            },
        }
        proof {
            lemma_first_with_update(
                old(self)@,
                job_id,
                i,
                job.with_status(status_after_tick(job.status, None, next_tick)),
            );
            assert(self@ =~= old(self)@.update(
                i,
                job.with_status(status_after_tick(job.status, None, next_tick)),
            ));
        }
        if let Some(until) = new_job.until {
            if until.is_before(&next_tick) {
                if self.get_job(job_id).is_some() {
                    let done = self.update_status(job_id, EscalonJobStatus::Done);
                    proof {
                        assert(self@ =~= old(self)@.update(i, job.with_status(EscalonJobStatus::Done)));
                    }
                    plan.ended = Some(done);
                }
            }
        }
        plan
    }

    /// Settles a run of the job `job_id` that started from the copy `job` and
    /// came back as `es_job`: where the two differ, the job kept takes the
    /// status of `es_job`, and a copy of it as it now is comes back to be
    /// reported; where they agree, nothing changes.
    pub fn record_run(&mut self, job_id: u128, job: &EscalonJob, es_job: &EscalonJob) -> (r: Option<EscalonJob>)
        requires
            !es_job.same_as(*job) ==> has_job(old(self)@, job_id),
        ensures
            es_job.same_as(*job) ==> r is None && final(self)@ == old(self)@,
            es_job.status != job.status ==> r is Some && r->0.status == es_job.status,
            !es_job.same_as(*job) ==> ({
                let i = first_with(old(self)@, job_id);
                let updated = old(self)@[i].with_status(es_job.status);
                &&& r == Some(updated)
                &&& final(self)@ == old(self)@.update(i, updated)
            }),
            final(self).context == old(self).context,
            final(self).id == old(self).id,
            final(self).addr == old(self).addr,
            final(self).port == old(self).port,
    {
        if !es_job.eq(job) {
            let updated = self.update_status(job_id, es_job.status);
            Some(updated)
        } else {
            None
        }
    }
}

} // verus!

use escalon_jobs::handler::TickPlan;
use escalon_jobs::job::{EscalonJob, EscalonJobStatus, JobTime, NewEscalonJob};
use escalon_jobs::manager::{Addr, EscalonJobsManager, EscalonJobsManagerBuilder, Id, IpAddress, Port};

fn at(secs: i64) -> JobTime {
    JobTime { secs, nanos: 0 }
}

fn new_job(schedule: &str, since: Option<JobTime>, until: Option<JobTime>) -> NewEscalonJob {
    NewEscalonJob { schedule: schedule.to_string(), since, until }
}

fn manager() -> EscalonJobsManager<u32> {
    let builder = EscalonJobsManagerBuilder::new(7u32)
        .set_id("node-a".to_string())
        .set_addr(IpAddress::V4([127, 0, 0, 1]))
        .set_port(65056);
    let (manager, _functions) = builder.build();
    manager
}

#[test]
fn builder_keeps_every_setting() {
    let builder = EscalonJobsManagerBuilder::new("ctx".to_string())
        .set_port(1)
        .set_id("first".to_string())
        .set_addr(IpAddress::V6([0, 0, 0, 0, 0, 0, 0, 1]))
        .set_port(2)
        .set_functions(42u8);
    let (manager, functions) = builder.build();
    assert_eq!(functions, 42u8);
    assert_eq!(manager.id.0, "first");
    assert_eq!(manager.port.0, 2);
    assert!(matches!(manager.addr, Addr(IpAddress::V6([0, 0, 0, 0, 0, 0, 0, 1]))));
    assert_eq!(manager.context.0, "ctx");
    assert_eq!(manager.count(), 0);
    assert!(manager.get_jobs().is_empty());
}

#[test]
fn set_id_replaces_an_earlier_id() {
    let (manager, _) = EscalonJobsManagerBuilder::new(0u8)
        .set_id("a".to_string())
        .set_id("b".to_string())
        .set_addr(IpAddress::V4([0, 0, 0, 0]))
        .set_port(9)
        .build();
    let Id(id) = manager.id;
    let Port(port) = manager.port;
    assert_eq!(id, "b");
    assert_eq!(port, 9);
}

#[test]
fn added_job_is_scheduled_and_found() {
    let mut m = manager();
    let added = m.add_job(11, new_job("0/5 * * * * *", Some(at(1)), None));
    assert_eq!(added.job_id, 11);
    assert_eq!(added.status, EscalonJobStatus::Scheduled);
    assert_eq!(added.schedule, "0/5 * * * * *");
    assert_eq!(added.since, Some(at(1)));
    assert_eq!(added.until, None);
    assert_eq!(m.count(), 1);
    assert_eq!(m.get_job(11), Some(added.clone()));
    assert_eq!(m.get_job(12), None);
    assert_eq!(m.get_jobs(), vec![added]);
}

#[test]
fn jobs_keep_their_order() {
    let mut m = manager();
    m.add_job(3, new_job("a", None, None));
    m.add_job(1, new_job("b", None, None));
    m.add_job(2, new_job("c", None, None));
    let ids: Vec<u128> = m.get_jobs().iter().map(|j| j.job_id).collect();
    assert_eq!(ids, vec![3, 1, 2]);
}

#[test]
fn lookup_finds_the_first_of_equal_ids() {
    let mut m = manager();
    m.add_job(4, new_job("first", None, None));
    m.add_job(4, new_job("second", None, None));
    assert_eq!(m.get_job(4).unwrap().schedule, "first");
}

#[test]
fn remove_drops_every_job_with_the_id() {
    let mut m = manager();
    m.add_job(1, new_job("a", None, None));
    m.add_job(2, new_job("b", None, None));
    m.add_job(1, new_job("c", None, None));
    m.add_job(3, new_job("d", None, None));
    m.remove_job(1);
    let ids: Vec<u128> = m.get_jobs().iter().map(|j| j.job_id).collect();
    assert_eq!(ids, vec![2, 3]);
    assert_eq!(m.get_job(1), None);
    assert_eq!(m.get_job(2).unwrap().schedule, "b");
}

#[test]
fn remove_of_an_absent_id_changes_nothing() {
    let mut m = manager();
    m.add_job(1, new_job("a", None, None));
    let before = m.get_jobs();
    m.remove_job(9);
    assert_eq!(m.get_jobs(), before);
}

#[test]
fn update_status_changes_only_that_job() {
    let mut m = manager();
    m.add_job(1, new_job("a", None, None));
    m.add_job(2, new_job("b", None, None));
    let updated = m.update_status(2, EscalonJobStatus::Failed);
    assert_eq!(updated.status, EscalonJobStatus::Failed);
    assert_eq!(updated.schedule, "b");
    assert_eq!(m.get_job(2), Some(updated));
    assert_eq!(m.get_job(1).unwrap().status, EscalonJobStatus::Scheduled);
    assert_eq!(m.count(), 2);
}

#[test]
fn update_job_reschedules_a_copy_only() {
    let mut m = manager();
    m.add_job(1, new_job("a", None, None));
    m.update_status(1, EscalonJobStatus::Running);
    let changed = m.update_job(1, &new_job("b", Some(at(5)), Some(at(9))));
    assert_eq!(changed.job_id, 1);
    assert_eq!(changed.status, EscalonJobStatus::Running);
    assert_eq!(changed.schedule, "b");
    assert_eq!(changed.since, Some(at(5)));
    assert_eq!(changed.until, Some(at(9)));
    let kept = m.get_job(1).unwrap();
    assert_eq!(kept.schedule, "a");
    assert_eq!(kept.since, None);
}

fn idle(plan: &TickPlan) -> bool {
    plan.started.is_none() && !plan.run && !plan.remove && plan.ended.is_none()
}

#[test]
fn tick_before_since_is_skipped() {
    let mut m = manager();
    let def = new_job("s", Some(at(100)), Some(at(10)));
    m.add_job(1, def.clone());
    let plan = m.status_handler(1, &def, at(50));
    assert!(idle(&plan));
    assert_eq!(m.get_job(1).unwrap().status, EscalonJobStatus::Scheduled);
}

#[test]
fn tick_at_since_starts_the_job() {
    let mut m = manager();
    let def = new_job("s", Some(at(50)), None);
    m.add_job(1, def.clone());
    let plan = m.status_handler(1, &def, at(50));
    assert!(plan.run);
    assert!(!plan.remove);
    assert_eq!(plan.started.unwrap().status, EscalonJobStatus::Running);
    assert!(plan.ended.is_none());
    assert_eq!(m.get_job(1).unwrap().status, EscalonJobStatus::Running);
}

#[test]
fn running_job_is_run_again() {
    let mut m = manager();
    let def = new_job("s", None, None);
    m.add_job(1, def.clone());
    m.update_status(1, EscalonJobStatus::Running);
    let plan = m.status_handler(1, &def, at(0));
    assert!(plan.run);
    assert!(plan.started.is_none());
    assert!(!plan.remove);
    assert_eq!(m.get_job(1).unwrap().status, EscalonJobStatus::Running);
}

#[test]
fn done_and_failed_jobs_are_removed() {
    let mut m = manager();
    let def = new_job("s", Some(at(1000)), None);
    m.add_job(1, def.clone());
    m.add_job(2, def.clone());
    m.update_status(1, EscalonJobStatus::Done);
    m.update_status(2, EscalonJobStatus::Failed);
    let plan = m.status_handler(1, &def, at(0));
    assert!(plan.remove && !plan.run && plan.started.is_none() && plan.ended.is_none());
    let plan = m.status_handler(2, &def, at(0));
    assert!(plan.remove && !plan.run);
    assert_eq!(m.get_job(2).unwrap().status, EscalonJobStatus::Failed);
}

#[test]
fn tick_after_until_marks_the_job_done() {
    let mut m = manager();
    let def = new_job("s", None, Some(at(10)));
    m.add_job(1, def.clone());
    m.add_job(2, new_job("other", None, None));
    let plan = m.status_handler(1, &def, JobTime { secs: 10, nanos: 1 });
    assert!(plan.run);
    assert_eq!(plan.started.unwrap().status, EscalonJobStatus::Running);
    assert_eq!(plan.ended.unwrap().status, EscalonJobStatus::Done);
    assert_eq!(m.get_job(1).unwrap().status, EscalonJobStatus::Done);
    assert_eq!(m.get_job(2).unwrap().status, EscalonJobStatus::Scheduled);
}

#[test]
fn tick_at_until_does_not_end_the_job() {
    let mut m = manager();
    let def = new_job("s", None, Some(at(10)));
    m.add_job(1, def.clone());
    let plan = m.status_handler(1, &def, at(10));
    assert!(plan.ended.is_none());
    assert_eq!(m.get_job(1).unwrap().status, EscalonJobStatus::Running);
}

#[test]
fn failed_job_past_until_is_removed_and_marked_done() {
    let mut m = manager();
    let def = new_job("s", None, Some(at(1)));
    m.add_job(1, def.clone());
    m.update_status(1, EscalonJobStatus::Failed);
    let plan = m.status_handler(1, &def, at(2));
    assert!(plan.remove);
    assert_eq!(plan.ended.unwrap().status, EscalonJobStatus::Done);
    assert_eq!(m.get_job(1).unwrap().status, EscalonJobStatus::Done);
}

#[test]
fn unchanged_run_records_nothing() {
    let mut m = manager();
    let job = m.add_job(1, new_job("s", None, None));
    let back = job.clone();
    assert_eq!(m.record_run(1, &job, &back), None);
    assert_eq!(m.get_job(1).unwrap().status, EscalonJobStatus::Scheduled);
}

#[test]
fn changed_run_records_its_status() {
    let mut m = manager();
    let job = m.add_job(1, new_job("s", None, None));
    let mut back = job.clone();
    back.status = EscalonJobStatus::Failed;
    back.schedule = "ignored".to_string();
    let recorded = m.record_run(1, &job, &back).unwrap();
    assert_eq!(recorded.status, EscalonJobStatus::Failed);
    assert_eq!(recorded.schedule, "s");
    assert_eq!(m.get_job(1), Some(recorded));
}

#[test]
fn run_that_changes_only_the_schedule_keeps_the_status() {
    let mut m = manager();
    let job = m.add_job(1, new_job("s", None, None));
    let mut back = job.clone();
    back.schedule = "t".to_string();
    let recorded = m.record_run(1, &job, &back).unwrap();
    assert_eq!(recorded.status, EscalonJobStatus::Scheduled);
    assert_eq!(m.get_job(1).unwrap().schedule, "s");
}

#[test]
fn instants_order_by_seconds_then_nanos() {
    let a = JobTime { secs: 5, nanos: 999 };
    let b = JobTime { secs: 6, nanos: 0 };
    let c = JobTime { secs: 6, nanos: 1 };
    assert!(a.is_before(&b));
    assert!(b.is_before(&c));
    assert!(!c.is_before(&b));
    assert!(!b.is_before(&b));
    assert!(JobTime { secs: -1, nanos: 0 }.is_before(&JobTime { secs: 0, nanos: 0 }));
}

#[test]
fn defaults() {
    assert_eq!(EscalonJobStatus::default(), EscalonJobStatus::Scheduled);
    let job = EscalonJob::default();
    assert_eq!(job.job_id, 0);
    assert_eq!(job.status, EscalonJobStatus::Scheduled);
    assert_eq!(job.schedule, "");
    assert_eq!(job.since, None);
    assert_eq!(job.until, None);
}

#[test]
fn jobs_compare_field_by_field() {
    let a = EscalonJob { job_id: 1, status: EscalonJobStatus::Running, schedule: "x".to_string(), since: None, until: Some(at(3)) };
    let mut b = a.clone();
    assert_eq!(a, b);
    b.until = Some(at(4));
    assert_ne!(a, b);
}

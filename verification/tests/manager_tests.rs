use crontab_status::ClientUpdate;
use crontab_status::ConfigError;
use crontab_status::CronExecutionTime;
use crontab_status::Instant;
use crontab_status::Job;
use crontab_status::JobManager;
use crontab_status::Status;
use crontab_status::TimeValue;
use crontab_status::Update;

fn every() -> CronExecutionTime {
    CronExecutionTime::Timing(
        TimeValue::Every,
        TimeValue::Every,
        TimeValue::Every,
        TimeValue::Every,
        TimeValue::Every,
    )
}

fn some_instant() -> Instant {
    Instant {
        minute: 30,
        hour: 12,
        day: 15,
        month: 6,
        weekday: 3,
    }
}

fn manager() -> JobManager {
    JobManager::new(vec![
        (
            "backup".to_string(),
            Job {
                execution_time: every(),
                id: "backup".to_string(),
                hook: None,
            },
        ),
        (
            "cleanup".to_string(),
            Job {
                execution_time: every(),
                id: "cleanup".to_string(),
                hook: Some("http://alert.example/cleanup".to_string()),
            },
        ),
    ])
}

fn report(id: &str, event: Update) -> ClientUpdate {
    ClientUpdate {
        job_id: id.to_string(),
        hostname: "host-a".to_string(),
        command: "run it".to_string(),
        update: event,
    }
}

#[test]
fn new_manager_lists_all_jobs_unknown() {
    let m = manager();
    assert_eq!(
        m.get_jobs(),
        vec!["backup".to_string(), "cleanup".to_string()]
    );
    for id in ["backup", "cleanup"] {
        let js = m.get_job(id).expect("configured job");
        assert_eq!(js.status, Status::Unknown);
        assert_eq!(js.job.id, id);
    }
}

#[test]
fn get_job_unknown_id_is_none() {
    let m = manager();
    assert!(m.get_job("nope").is_none());
}

#[test]
fn update_unknown_id_rejected_and_harmless() {
    let mut m = manager();
    let r = m.update(report("nope", Update::FinishedJob("ok".to_string())), 100);
    assert_eq!(r, Err(ConfigError::ClientNotFound));
    // the registry is unchanged
    for id in ["backup", "cleanup"] {
        let js = m.get_job(id).unwrap();
        assert_eq!(js.status, Status::Unknown);
        assert_eq!(js.hostname.as_deref(), Some(""));
    }
}

#[test]
fn update_touches_only_the_named_job() {
    let mut m = manager();
    let r = m.update(report("backup", Update::FinishedJob("ok".to_string())), 100);
    assert_eq!(r, Ok(None));
    let backup = m.get_job("backup").unwrap();
    assert_eq!(backup.status, Status::Finished);
    assert_eq!(backup.log.as_deref(), Some("ok"));
    assert_eq!(backup.hostname.as_deref(), Some("host-a"));
    // the other job is untouched
    let cleanup = m.get_job("cleanup").unwrap();
    assert_eq!(cleanup.status, Status::Unknown);
    assert_eq!(cleanup.hostname.as_deref(), Some(""));
}

#[test]
fn updates_to_distinct_jobs_are_independent() {
    let mut m = manager();
    assert_eq!(m.update(report("backup", Update::StartingJob), 100), Ok(None));
    assert_eq!(m.update(report("cleanup", Update::StartingJob), 101), Ok(None));
    assert_eq!(
        m.update(report("backup", Update::FinishedJob("ok".to_string())), 102),
        Ok(None)
    );
    assert_eq!(m.get_job("backup").unwrap().status, Status::Finished);
    assert_eq!(m.get_job("cleanup").unwrap().status, Status::Running(101));
}

#[test]
fn error_update_hands_back_the_hook() {
    let mut m = manager();
    let r = m.update(report("cleanup", Update::Error("boom".to_string())), 100);
    assert_eq!(r, Ok(Some("http://alert.example/cleanup".to_string())));
    let cleanup = m.get_job("cleanup").unwrap();
    assert_eq!(cleanup.status, Status::ClientError);
    assert_eq!(cleanup.log.as_deref(), Some("boom"));
    // no hook configured on the other job
    let r = m.update(report("backup", Update::Error("boom".to_string())), 101);
    assert_eq!(r, Ok(None));
}

#[test]
fn tick_all_arms_then_challenges() {
    let mut m = manager();
    let t = some_instant();
    // first sweep: both jobs are due, both become ExpectingResponse
    let hooks = m.tick_all(&t, 100);
    assert!(hooks.is_empty());
    assert_eq!(m.get_job("backup").unwrap().status, Status::ExpectingResponse);
    assert_eq!(m.get_job("cleanup").unwrap().status, Status::ExpectingResponse);
    // second sweep: both move to WaitingForResponse; only the job with a
    // webhook hands one back
    let hooks = m.tick_all(&t, 160);
    assert_eq!(hooks, vec!["http://alert.example/cleanup".to_string()]);
    assert_eq!(
        m.get_job("backup").unwrap().status,
        Status::WaitingForResponse(160)
    );
    assert_eq!(
        m.get_job("cleanup").unwrap().status,
        Status::WaitingForResponse(160)
    );
}

#[test]
fn wall_clock_sweep_arms_always_due_jobs() {
    let mut m = manager();
    let hooks = m.run_tick();
    assert!(hooks.is_empty());
    assert_eq!(m.get_job("backup").unwrap().status, Status::ExpectingResponse);
    assert_eq!(m.get_job("cleanup").unwrap().status, Status::ExpectingResponse);
}

#[test]
fn snapshot_from_get_job_is_independent() {
    let mut m = manager();
    let mut copy = m.get_job("backup").unwrap();
    copy.status = Status::ClientError;
    copy.log = Some("mutated".to_string());
    assert_eq!(m.get_job("backup").unwrap().status, Status::Unknown);
}

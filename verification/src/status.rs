use vstd::prelude::*;

use crate::clock::{now_instant, unix_now};
use crate::schedule::{spec_matches, CronExecutionTime, Instant};

verus! {

/// The lifecycle state of one job.  Timestamps are whole seconds since the
/// Unix epoch, recorded when the state was entered.
#[derive(Clone, Copy, Debug, PartialEq, Eq, Structural)]
pub enum Status {
    Running(i64),
    Finished,
    Unknown,
    ExpectingResponse,
    WaitingForResponse(i64),
    ClientError,
}

/// The immutable identity of one configured job.  The webhook address is
/// carried as text; whoever dispatches it reads it as a URL.
#[derive(Debug)]
pub struct Job {
    pub execution_time: CronExecutionTime,
    pub id: String,
    pub hook: Option<String>,
}

/// The lifecycle event a client reports.
#[derive(Debug)]
pub enum Update {
    StartingJob,
    FinishedJob(String),
    Error(String),
}

/// A client report: which job, from which host, running which command, and
/// what happened.
#[derive(Debug)]
pub struct ClientUpdate {
    pub job_id: String,
    pub hostname: String,
    pub command: String,
    pub update: Update,
}

/// The tracked record of one job: its definition and what is known of its
/// last run.
#[derive(Debug)]
pub struct JobStatus {
    pub job: Job,
    pub status: Status,
    pub log: Option<String>,
    pub hostname: Option<String>,
    pub command: Option<String>,
}

/// Copy an optional string.
pub(crate) fn clone_opt_string(o: &Option<String>) -> (r: Option<String>)
    ensures
        r == *o,
{
    match o {
        None => None,
        Some(s) => Some(s.clone()),
    }
}

/// What one polling tick does.  A due `Finished`, `Unknown` or `ClientError`
/// job is re-armed to `ExpectingResponse`; an `ExpectingResponse` job moves
/// to `WaitingForResponse` and its webhook, if any, is handed back for
/// dispatch — so the webhook fires exactly once per due window, on the tick
/// that first observes it; every other state ignores the tick.
pub open spec fn spec_tick(pre: JobStatus, due: bool, now: i64) -> (JobStatus, Option<String>) {
    match pre.status {
        Status::Finished | Status::Unknown | Status::ClientError => (
            if due {
                JobStatus { status: Status::ExpectingResponse, ..pre }
            } else {
                pre
            },
            None,
        ),
        Status::ExpectingResponse => (
            JobStatus { status: Status::WaitingForResponse(now), ..pre },
            pre.job.hook,
        ),
        _ => (pre, None),
    }
}

/// What one client report does.  The reporting host and command are always
/// recorded; a start clears the log and marks the job running; a finish
/// stores the log and completes the job; an error stores the log, marks the
/// failure, and hands back the webhook, if any, for dispatch.
pub open spec fn spec_client_update(pre: JobStatus, u: ClientUpdate, now: i64) -> (
    JobStatus,
    Option<String>,
) {
    let base = JobStatus { hostname: Some(u.hostname), command: Some(u.command), ..pre };
    match u.update {
        Update::StartingJob => (
            JobStatus { log: None, status: Status::Running(now), ..base },
            None,
        ),
        Update::FinishedJob(l) => (
            JobStatus { log: Some(l), status: Status::Finished, ..base },
            None,
        ),
        Update::Error(e) => (
            JobStatus { log: Some(e), status: Status::ClientError, ..base },
            pre.job.hook,
        ),
    }
}

/// One wall-clock tick related to its outcome: the record took one
/// `spec_tick` step, due as the schedule says of the instant, and the hook
/// handed back is the step's.
pub open spec fn tick_outcome(
    pre: JobStatus,
    post: JobStatus,
    hook: Option<String>,
    t: Instant,
    now: i64,
) -> bool {
    post == spec_tick(pre, spec_matches(pre.job.execution_time, t), now).0 && hook == spec_tick(
        pre,
        spec_matches(pre.job.execution_time, t),
        now,
    ).1
}

impl JobStatus {
    /// Track a job, knowing nothing of it yet.
    pub fn new(job: Job) -> (r: JobStatus)
        ensures
            r.job == job,
            r.status == Status::Unknown,
            r.log matches Some(l) && l@ == Seq::<char>::empty(),
            r.hostname matches Some(h) && h@ == Seq::<char>::empty(),
            r.command matches Some(c) && c@ == Seq::<char>::empty(),
    {
        JobStatus {
            job,
            status: Status::Unknown,
            log: Some(String::new()),
            hostname: Some(String::new()),
            command: Some(String::new()),
        }
    }

    /// Apply one polling tick at instant `t`, read at `now` seconds.
    /// Returns the webhook to dispatch, if one fires.
    pub fn tick(&mut self, t: &Instant, now: i64) -> (hook: Option<String>)
        ensures
            *final(self) == spec_tick(
                *old(self),
                spec_matches(old(self).job.execution_time, *t),
                now,
            ).0,
            hook == spec_tick(*old(self), spec_matches(old(self).job.execution_time, *t), now).1,
    {
        match self.status {
            Status::Finished | Status::Unknown | Status::ClientError => {
                if self.job.execution_time.matches(t) {
                    self.status = Status::ExpectingResponse;
                }
                None
            },
            Status::ExpectingResponse => {
                let hook = clone_opt_string(&self.job.hook);
                self.status = Status::WaitingForResponse(now);
                hook
            },
            _ => None,
        }
    }

    /// Apply one polling tick against the current wall clock.  Whatever
    /// instant the clock returned, the record took one `spec_tick` step at
    /// some valid instant.
    pub fn update(&mut self) -> (hook: Option<String>)
        ensures
            exists|t: Instant, now: i64|
                t.wf() && #[trigger] tick_outcome(*old(self), *final(self), hook, t, now),
            final(self).job == old(self).job,
            final(self).log == old(self).log,
            final(self).hostname == old(self).hostname,
            final(self).command == old(self).command,
    {
        let t = now_instant();
        let now = unix_now();
        let hook = self.tick(&t, now);
        proof {
            assert(tick_outcome(*old(self), *self, hook, t, now));
        }
        hook
    }

    /// Apply one client report, read at `now` seconds.  Returns the webhook
    /// to dispatch, if one fires.
    pub fn client_update(&mut self, update: ClientUpdate, now: i64) -> (hook: Option<String>)
        ensures
            *final(self) == spec_client_update(*old(self), update, now).0,
            hook == spec_client_update(*old(self), update, now).1,
    {
        self.hostname = Some(update.hostname);
        self.command = Some(update.command);
        match update.update {
            Update::StartingJob => {
                self.log = None;
                self.status = Status::Running(now);
                None
            },
            Update::FinishedJob(log) => {
                self.log = Some(log);
                self.status = Status::Finished;
                None
            },
            Update::Error(err) => {
                self.log = Some(err);
                let hook = clone_opt_string(&self.job.hook);
                self.status = Status::ClientError;
                hook
            },
        }
    }

    /// An independent copy of this record: mutating the copy cannot touch
    /// the original.
    pub fn snapshot(&self) -> (r: JobStatus)
        ensures
            r == *self,
    {
        JobStatus {
            job: Job {
                execution_time: self.job.execution_time,
                id: self.job.id.clone(),
                hook: clone_opt_string(&self.job.hook),
            },
            status: self.status,
            log: clone_opt_string(&self.log),
            hostname: clone_opt_string(&self.hostname),
            command: clone_opt_string(&self.command),
        }
    }
}

/// An error report, from any state, marks the job `ClientError`, stores the
/// reported log, and hands back the webhook exactly when one is configured.
pub proof fn lemma_error_report(pre: JobStatus, u: ClientUpdate, now: i64)
    requires
        u.update is Error,
    ensures
        spec_client_update(pre, u, now).0.status == Status::ClientError,
        spec_client_update(pre, u, now).0.log == Some(u.update->Error_0),
        spec_client_update(pre, u, now).1 == pre.job.hook,
{
}

/// The lifecycle closes: from `Unknown`, a due tick arms the job, a second
/// due tick challenges it, a start report marks it running, a finish report
/// completes it and stores the log, and a further due tick re-arms it.
pub proof fn lemma_lifecycle(
    s0: JobStatus,
    start: ClientUpdate,
    finish: ClientUpdate,
    n1: i64,
    n2: i64,
    n3: i64,
    n4: i64,
    n5: i64,
)
    requires
        s0.status == Status::Unknown,
        start.update is StartingJob,
        finish.update is FinishedJob,
    ensures
        ({
            let s1 = spec_tick(s0, true, n1).0;
            let s2 = spec_tick(s1, true, n2).0;
            let s3 = spec_client_update(s2, start, n3).0;
            let s4 = spec_client_update(s3, finish, n4).0;
            let s5 = spec_tick(s4, true, n5).0;
            s1.status == Status::ExpectingResponse && s2.status == Status::WaitingForResponse(n2)
                && s3.status == Status::Running(n3) && s4.status == Status::Finished && s4.log
                == Some(finish.update->FinishedJob_0) && s5.status == Status::ExpectingResponse
        }),
{
}

/// A job that failed is re-armed exactly like one that finished: the next
/// due tick moves it back to `ExpectingResponse`.
pub proof fn lemma_client_error_rearms(s: JobStatus, now: i64)
    requires
        s.status == Status::ClientError,
    ensures
        spec_tick(s, true, now).0.status == Status::ExpectingResponse,
{
}

} // verus!

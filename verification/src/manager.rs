use vstd::prelude::*;

use crate::clock::{now_instant, unix_now};
use crate::error::{ConfigError, ConfigResult};
use crate::schedule::{spec_matches, Instant};
use crate::status::{
    clone_opt_string, spec_client_update, spec_tick, ClientUpdate, Job, JobStatus, Status,
};

verus! {

/// Whether some entry of the registry carries the given job id.
pub open spec fn has_id(entries: Seq<(String, JobStatus)>, id: Seq<char>) -> bool {
    exists|i: int| 0 <= i < entries.len() && (#[trigger] entries[i]).0@ == id
}

/// The webhooks one tick sweep fires, in registry order.
pub open spec fn spec_tick_hooks(entries: Seq<(String, JobStatus)>, t: Instant, now: i64) -> Seq<
    String,
>
    decreases entries.len(),
{
    if entries.len() == 0 {
        Seq::empty()
    } else {
        let prior = spec_tick_hooks(entries.drop_last(), t, now);
        match spec_tick(
            entries.last().1,
            spec_matches(entries.last().1.job.execution_time, t),
            now,
        ).1 {
            Option::Some(u) => prior.push(u),
            Option::None => prior,
        }
    }
}

/// One wall-clock sweep related to its outcome: every record took one
/// `spec_tick` step at the same valid instant, ids and order kept, and the
/// hooks handed back are exactly the steps'.
pub open spec fn tick_all_outcome(
    pre: Seq<(String, JobStatus)>,
    post: Seq<(String, JobStatus)>,
    hooks: Seq<String>,
    t: Instant,
    now: i64,
) -> bool {
    &&& post.len() == pre.len()
    &&& forall|i: int| 0 <= i < pre.len() ==> (#[trigger] post[i]).0 == pre[i].0
    &&& forall|i: int|
        0 <= i < pre.len() ==> (#[trigger] post[i]).1 == spec_tick(
            pre[i].1,
            spec_matches(pre[i].1.job.execution_time, t),
            now,
        ).0
    &&& hooks == spec_tick_hooks(pre, t, now)
}

/// Whether two strings hold the same characters.
fn str_eq(a: &str, b: &str) -> (r: bool)
    ensures
        r == (a@ == b@),
{
    let n = a.unicode_len();
    if n != b.unicode_len() {
        return false;
    }
    let mut i: usize = 0;
    while i < n
        invariant
            i <= n,
            n == a@.len(),
            n == b@.len(),
            forall|k: int| 0 <= k < i ==> a@[k] == b@[k],
        decreases n - i,
    {
        if a.get_char(i) != b.get_char(i) {
            return false;
        }
        i += 1;
    }
    proof {
        assert(a@ =~= b@);
    }
    true
}

/// The registry: one tracked record per configured job, keyed by job id.
/// The key set is fixed at construction; only the records change.
pub struct JobManager {
    jobs: Vec<(String, JobStatus)>,
}

impl JobManager {
    /// The registry's contents, in construction order.
    pub closed spec fn entries(&self) -> Seq<(String, JobStatus)> {
        self.jobs@
    }

    /// Job ids are pairwise distinct, so an id names at most one entry.
    pub open spec fn wf(&self) -> bool {
        forall|i: int, j: int|
            0 <= i < j < self.entries().len() ==> (#[trigger] self.entries()[i]).0@ != (
            #[trigger] self.entries()[j]).0@
    }

    /// Build the registry from the configured jobs, every job unknown.
    pub fn new(defs: Vec<(String, Job)>) -> (r: JobManager)
        requires
            forall|i: int, j: int|
                0 <= i < j < defs@.len() ==> (#[trigger] defs@[i]).0@ != (#[trigger] defs@[j]).0@,
        ensures
            r.wf(),
            r.entries().len() == defs@.len(),
            forall|i: int|
                0 <= i < defs@.len() ==> {
                    let e = #[trigger] r.entries()[i];
                    &&& e.0 == defs@[i].0
                    &&& e.1.job == defs@[i].1
                    &&& e.1.status == Status::Unknown
                    &&& e.1.log matches Some(l) && l@ == Seq::<char>::empty()
                    &&& e.1.hostname matches Some(h) && h@ == Seq::<char>::empty()
                    &&& e.1.command matches Some(c) && c@ == Seq::<char>::empty()
                },
    {
        let ghost orig = defs@;
        let mut defs = defs;
        let mut jobs: Vec<(String, JobStatus)> = Vec::new();
        while defs.len() > 0
            invariant
                orig.len() == jobs@.len() + defs@.len(),
                defs@ == orig.subrange(jobs@.len() as int, orig.len() as int),
                forall|i: int|
                    0 <= i < jobs@.len() ==> {
                        let e = #[trigger] jobs@[i];
                        &&& e.0 == orig[i].0
                        &&& e.1.job == orig[i].1
                        &&& e.1.status == Status::Unknown
                        &&& e.1.log matches Some(l) && l@ == Seq::<char>::empty()
                        &&& e.1.hostname matches Some(h) && h@ == Seq::<char>::empty()
                        &&& e.1.command matches Some(c) && c@ == Seq::<char>::empty()
                    },
            decreases defs@.len(),
        {
            let ghost pre = defs@;
            let (id, job) = defs.remove(0);
            proof {
                assert(defs@ =~= orig.subrange(jobs@.len() as int + 1, orig.len() as int));
            }
            let st = JobStatus::new(job);
            jobs.push((id, st));
        }
        let r = JobManager { jobs };
        proof {
            assert forall|i: int, j: int| 0 <= i < j < r.entries().len() implies (
            #[trigger] r.entries()[i]).0@ != (#[trigger] r.entries()[j]).0@ by {
                assert(r.entries()[i].0 == orig[i].0);
                assert(r.entries()[j].0 == orig[j].0);
            }
        }
        r
    }

    /// Apply a client report to the job it names, read at `now` seconds.
    /// An unknown job id is rejected and the registry is left unchanged.
    /// Otherwise only the named entry changes, by one `spec_client_update`
    /// step — every other job's record is untouched — and the webhook to
    /// dispatch, if one fires, is handed back.
    pub fn update(&mut self, update: ClientUpdate, now: i64) -> (r: ConfigResult<Option<String>>)
        requires
            old(self).wf(),
        ensures
            final(self).wf(),
            final(self).entries().len() == old(self).entries().len(),
            forall|i: int|
                0 <= i < old(self).entries().len() ==> (#[trigger] final(self).entries()[i]).0
                    == old(self).entries()[i].0,
            !has_id(old(self).entries(), update.job_id@) ==> r == Err::<
                Option<String>,
                ConfigError,
            >(ConfigError::ClientNotFound) && final(self).entries() == old(self).entries(),
            has_id(old(self).entries(), update.job_id@) ==> r is Ok,
            forall|i: int|
                0 <= i < old(self).entries().len() && (#[trigger] old(self).entries()[i]).0@
                    != update.job_id@ ==> final(self).entries()[i] == old(self).entries()[i],
            forall|i: int|
                0 <= i < old(self).entries().len() && (#[trigger] old(self).entries()[i]).0@
                    == update.job_id@ ==> final(self).entries()[i].1 == spec_client_update(
                    old(self).entries()[i].1,
                    update,
                    now,
                ).0 && r == Ok::<Option<String>, ConfigError>(
                    spec_client_update(old(self).entries()[i].1, update, now).1,
                ),
    {
        let n = self.jobs.len();
        let mut idx: usize = 0;
        while idx < n
            invariant
                old(self).wf(),
                *self == *old(self),
                n == self.jobs@.len(),
                idx <= n,
                forall|k: int| 0 <= k < idx ==> (#[trigger] self.jobs@[k]).0@ != update.job_id@,
            decreases n - idx,
        {
            let found = str_eq(self.jobs[idx].0.as_str(), update.job_id.as_str());
            if found {
                let ghost old_jobs = self.jobs@;
                let (key, mut st) = self.jobs.remove(idx);
                let hook = st.client_update(update, now);
                self.jobs.insert(idx, (key, st));
                proof {
                    assert(self.jobs@ =~= old_jobs.update(idx as int, (key, st)));
                    assert forall|a: int, b: int|
                        0 <= a < b < self.entries().len() implies (
                    #[trigger] self.entries()[a]).0@ != (#[trigger] self.entries()[b]).0@ by {
                        assert(self.jobs@[a].0 == old_jobs[a].0);
                        assert(self.jobs@[b].0 == old_jobs[b].0);
                        assert(old(self).entries()[a].0@ != old(self).entries()[b].0@);
                    }
                }
                return Ok(hook);
            }
            idx += 1;
        }
        Err(ConfigError::ClientNotFound)
    }

    /// The configured job ids, in registry order.
    pub fn get_jobs(&self) -> (r: Vec<String>)
        ensures
            r@.len() == self.entries().len(),
            forall|i: int| 0 <= i < r@.len() ==> #[trigger] r@[i] == self.entries()[i].0,
    {
        let mut out: Vec<String> = Vec::new();
        let mut i: usize = 0;
        while i < self.jobs.len()
            invariant
                i <= self.jobs@.len(),
                out@.len() == i,
                forall|k: int| 0 <= k < i ==> #[trigger] out@[k] == self.jobs@[k].0,
            decreases self.jobs@.len() - i,
        {
            out.push(self.jobs[i].0.clone());
            i += 1;
        }
        out
    }

    /// A copy of the named job's current record, if the id is known.  The
    /// copy is independent: mutating it cannot touch the registry.
    pub fn get_job(&self, job: &str) -> (r: Option<JobStatus>)
        ensures
            match r {
                Option::None => !has_id(self.entries(), job@),
                Option::Some(v) => exists|i: int|
                    0 <= i < self.entries().len() && (#[trigger] self.entries()[i]).0@ == job@ && v
                        == self.entries()[i].1,
            },
    {
        let mut i: usize = 0;
        while i < self.jobs.len()
            invariant
                i <= self.jobs@.len(),
                forall|k: int| 0 <= k < i ==> (#[trigger] self.jobs@[k]).0@ != job@,
            decreases self.jobs@.len() - i,
        {
            if str_eq(self.jobs[i].0.as_str(), job) {
                let found = self.jobs[i].1.snapshot();
                proof {
                    assert((self.entries()[i as int]).0@ == job@);
                }
                return Some(found);
            }
            i += 1;
        }
        None
    }

    /// Apply one polling tick to every job in order, at instant `t` read at
    /// `now` seconds, handing back every webhook that fired.
    pub fn tick_all(&mut self, t: &Instant, now: i64) -> (hooks: Vec<String>)
        ensures
            tick_all_outcome(old(self).entries(), final(self).entries(), hooks@, *t, now),
            old(self).wf() ==> final(self).wf(),
    {
        let ghost orig = self.jobs@;
        let mut hooks: Vec<String> = Vec::new();
        let mut i: usize = 0;
        let n = self.jobs.len();
        while i < n
            invariant
                i <= n,
                n == orig.len(),
                self.jobs@.len() == orig.len(),
                forall|k: int| i <= k < orig.len() ==> #[trigger] self.jobs@[k] == orig[k],
                forall|k: int| 0 <= k < i ==> (#[trigger] self.jobs@[k]).0 == orig[k].0,
                forall|k: int|
                    0 <= k < i ==> (#[trigger] self.jobs@[k]).1 == spec_tick(
                        orig[k].1,
                        spec_matches(orig[k].1.job.execution_time, *t),
                        now,
                    ).0,
                hooks@ == spec_tick_hooks(orig.take(i as int), *t, now),
            decreases n - i,
        {
            let ghost old_jobs = self.jobs@;
            let (key, mut st) = self.jobs.remove(i);
            let hook = st.tick(t, now);
            self.jobs.insert(i, (key, st));
            proof {
                assert(self.jobs@ =~= old_jobs.update(i as int, (key, st)));
                assert(orig.take(i + 1).drop_last() =~= orig.take(i as int));
                assert(orig.take(i + 1).last() == orig[i as int]);
            }
            match hook {
                Some(u) => hooks.push(u),
                None => {},
            }
            i += 1;
        }
        proof {
            assert(orig.take(orig.len() as int) =~= orig);
            if old(self).wf() {
                assert forall|a: int, b: int| 0 <= a < b < self.entries().len() implies (
                #[trigger] self.entries()[a]).0@ != (#[trigger] self.entries()[b]).0@ by {
                    assert(self.jobs@[a].0 == orig[a].0);
                    assert(self.jobs@[b].0 == orig[b].0);
                    assert(old(self).entries()[a].0@ != old(self).entries()[b].0@);
                }
            }
        }
        hooks
    }

    /// Apply one polling tick to every job against the current wall clock.
    /// Whatever instant the clock returned, every record took one
    /// `spec_tick` step at that same valid instant.
    pub fn run_tick(&mut self) -> (hooks: Vec<String>)
        ensures
            exists|t: Instant, now: i64|
                t.wf() && #[trigger] tick_all_outcome(
                    old(self).entries(),
                    final(self).entries(),
                    hooks@,
                    t,
                    now,
                ),
            old(self).wf() ==> final(self).wf(),
    {
        let t = now_instant();
        let now = unix_now();
        let hooks = self.tick_all(&t, now);
        proof {
            assert(tick_all_outcome(old(self).entries(), self.entries(), hooks@, t, now));
        }
        hooks
    }
}

} // verus!

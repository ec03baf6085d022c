use vstd::prelude::*;

use crate::schedule::{spec_matches, CronExecutionTime, Instant};

verus! {

/// Relies on chrono's `Utc::now` and its `Timelike`/`Datelike` accessors:
/// `minute` is 0 to 59, `hour` 0 to 23, `day` 1 to 31, `month` 1 to 12, and
/// `Weekday::number_from_monday` 1 to 7.  As `Utc::now` itself does, this
/// panics on a host whose clock is set before the Unix epoch.
#[verifier::external_body]
pub(crate) fn now_instant() -> (t: Instant)
    ensures
        t.wf(),
{
    let now = chrono::Utc::now();
    Instant {
        minute: chrono::Timelike::minute(&now) as u8,
        hour: chrono::Timelike::hour(&now) as u8,
        day: chrono::Datelike::day(&now) as u8,
        month: chrono::Datelike::month(&now) as u8,
        weekday: chrono::Datelike::weekday(&now).number_from_monday() as u8,
    }
}

/// Relies on chrono's `DateTime::timestamp` on `Utc::now`: the current time
/// as whole seconds since the Unix epoch.  As `Utc::now` itself does, this
/// panics on a host whose clock is set before the Unix epoch.
#[verifier::external_body]
pub(crate) fn unix_now() -> i64 {
    chrono::Utc::now().timestamp()
}

impl CronExecutionTime {
    /// Whether this schedule is due right now: the matcher's answer at the
    /// valid instant the wall clock returned.  `Reboot` is never due.
    pub fn now(&self) -> (r: bool)
        ensures
            exists|t: Instant| t.wf() && r == #[trigger] spec_matches(*self, t),
            self is Reboot ==> r == false,
    {
        let t = now_instant();
        let r = self.matches(&t);
        proof {
            assert(t.wf() && r == spec_matches(*self, t));
        }
        r
    }
}

} // verus!

use vstd::prelude::*;

verus! {

/// One field of a five-field schedule: a wildcard or one fixed value.
#[derive(Clone, Copy, Debug, PartialEq, Eq, Structural)]
pub enum TimeValue {
    Every,
    Explicit(u8),
}

/// A schedule: `Reboot` (matched only by an external restart signal, never by
/// a clock comparison) or five fields, in crontab order: minute, hour, day of
/// month, month, day of week.
#[derive(Clone, Copy, Debug, PartialEq, Eq, Structural)]
pub enum CronExecutionTime {
    Reboot,
    Timing(TimeValue, TimeValue, TimeValue, TimeValue, TimeValue),
}

/// A point in time, reduced to the calendar fields a schedule can see.
/// `weekday` runs from 1 (Monday) to 7 (Sunday).
#[derive(Clone, Copy, Debug, PartialEq, Eq, Structural)]
pub struct Instant {
    pub minute: u8,
    pub hour: u8,
    pub day: u8,
    pub month: u8,
    pub weekday: u8,
}

impl Instant {
    /// The field ranges of a real calendar instant.
    pub open spec fn wf(self) -> bool {
        self.minute <= 59 && self.hour <= 23 && 1 <= self.day <= 31 && 1 <= self.month <= 12
            && 1 <= self.weekday <= 7
    }
}

/// Whether one schedule field accepts one calendar value.
pub open spec fn field_matches(f: TimeValue, v: u8) -> bool {
    match f {
        TimeValue::Every => true,
        TimeValue::Explicit(t) => v == t,
    }
}

/// Whether the day-of-week field accepts a weekday.  An explicit 0 and an
/// explicit 7 both stand for Sunday, which the instant carries as 7.
pub open spec fn weekday_matches(f: TimeValue, wd: u8) -> bool {
    match f {
        TimeValue::Every => true,
        TimeValue::Explicit(t) => wd == t || (wd == 7 && t == 0),
    }
}

/// Whether a schedule is due at an instant.  Minute, hour and month must each
/// match; the day-of-month and day-of-week fields are combined with OR, the
/// conventional crontab coupling of the two day fields.
pub open spec fn spec_matches(s: CronExecutionTime, t: Instant) -> bool {
    match s {
        CronExecutionTime::Reboot => false,
        CronExecutionTime::Timing(min, h, d, mo, wd) => field_matches(min, t.minute)
            && field_matches(h, t.hour) && field_matches(mo, t.month) && (field_matches(d, t.day)
            || weekday_matches(wd, t.weekday)),
    }
}

impl CronExecutionTime {
    /// Field ranges a schedule built from valid configuration obeys.
    pub open spec fn wf(self) -> bool {
        match self {
            CronExecutionTime::Reboot => true,
            CronExecutionTime::Timing(min, h, d, mo, wd) => {
                &&& (min matches TimeValue::Explicit(v) ==> v <= 59)
                &&& (h matches TimeValue::Explicit(v) ==> v <= 23)
                &&& (d matches TimeValue::Explicit(v) ==> 1 <= v <= 31)
                &&& (mo matches TimeValue::Explicit(v) ==> 1 <= v <= 12)
                &&& (wd matches TimeValue::Explicit(v) ==> v <= 7)
            },
        }
    }

    /// Decide whether this schedule is due at the given instant.
    pub fn matches(&self, t: &Instant) -> (r: bool)
        ensures
            r == spec_matches(*self, *t),
    {
        let (f_min, f_hour, f_day, f_month, f_wd) = match self {
            CronExecutionTime::Reboot => {
                return false;
            },
            CronExecutionTime::Timing(t1, t2, t3, t4, t5) => (t1, t2, t3, t4, t5),
        };
        let min_fits = match f_min {
            TimeValue::Every => true,
            TimeValue::Explicit(v) => t.minute == *v,
        };
        let hour_fits = match f_hour {
            TimeValue::Every => true,
            TimeValue::Explicit(v) => t.hour == *v,
        };
        let day_fits = match f_day {
            TimeValue::Every => true,
            TimeValue::Explicit(v) => t.day == *v,
        };
        let month_fits = match f_month {
            TimeValue::Every => true,
            TimeValue::Explicit(v) => t.month == *v,
        };
        let wd_fits = match f_wd {
            TimeValue::Every => true,
            TimeValue::Explicit(v) => t.weekday == *v || (t.weekday == 7 && *v == 0),
        };
        min_fits && hour_fits && month_fits && (day_fits || wd_fits)
    }
}

/// A `Reboot` schedule is never due at any instant.
pub proof fn lemma_reboot_never_matches(t: Instant)
    ensures
        !spec_matches(CronExecutionTime::Reboot, t),
{
}

/// Weekday values 0 and 7 are interchangeable: at every valid instant, a
/// schedule explicit on weekday 0 is due exactly when the same schedule
/// explicit on weekday 7 is.
pub proof fn lemma_weekday_zero_seven(
    min: TimeValue,
    h: TimeValue,
    d: TimeValue,
    mo: TimeValue,
    t: Instant,
)
    requires
        t.wf(),
    ensures
        spec_matches(CronExecutionTime::Timing(min, h, d, mo, TimeValue::Explicit(0)), t)
            == spec_matches(CronExecutionTime::Timing(min, h, d, mo, TimeValue::Explicit(7)), t),
{
}

/// Whether an instant carries exactly the values a schedule names: every
/// explicit field equals the instant's field, the weekday up to the 0/7
/// equivalence.
pub open spec fn encodes(s: CronExecutionTime, t: Instant) -> bool {
    match s {
        CronExecutionTime::Reboot => false,
        CronExecutionTime::Timing(min, h, d, mo, wd) => field_matches(min, t.minute)
            && field_matches(h, t.hour) && field_matches(d, t.day) && field_matches(mo, t.month)
            && weekday_matches(wd, t.weekday),
    }
}

/// An instant that carries exactly the values a timing schedule names is due.
pub proof fn lemma_matches_encoding(s: CronExecutionTime, t: Instant)
    requires
        encodes(s, t),
    ensures
        spec_matches(s, t),
{
}

/// Changing the instant's minute, hour or month away from an explicit field
/// value makes the schedule not due.
pub proof fn lemma_explicit_mismatch(s: CronExecutionTime, t: Instant)
    ensures
        (s matches CronExecutionTime::Timing(min, h, d, mo, wd) && (!field_matches(min, t.minute)
            || !field_matches(h, t.hour) || !field_matches(mo, t.month))) ==> !spec_matches(s, t),
{
}

/// When both day fields are explicit and neither holds of the instant, the
/// schedule is not due; if either one holds, the day condition is satisfied.
pub proof fn lemma_day_or_weekday(s: CronExecutionTime, t: Instant)
    ensures
        (s matches CronExecutionTime::Timing(min, h, d, mo, wd) && !field_matches(d, t.day)
            && !weekday_matches(wd, t.weekday)) ==> !spec_matches(s, t),
        (s matches CronExecutionTime::Timing(min, h, d, mo, wd) && field_matches(min, t.minute)
            && field_matches(h, t.hour) && field_matches(mo, t.month) && (field_matches(d, t.day)
            || weekday_matches(wd, t.weekday))) ==> spec_matches(s, t),
{
}

} // verus!

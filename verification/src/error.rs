use vstd::prelude::*;

verus! {

/// Why a textual schedule was rejected.  Each variant corresponds to one way
/// the five-field crontab grammar can fail.
#[derive(Clone, Copy, Debug, PartialEq, Eq, Structural)]
pub enum ScheduleError {
    /// Fewer than five space-separated fields.
    MissingField,
    /// More than five space-separated fields.
    ExtraField,
    /// A field that is neither `*`, a known name, nor a small number.
    InvalidNumber,
    /// Minute above 59.
    MinuteTooBig,
    /// Hour above 23.
    HourTooBig,
    /// Day of month above 31.
    DayTooBig,
    /// Day of month below 1.
    DayTooSmall,
    /// Month above 12.
    MonthTooBig,
    /// Month below 1.
    MonthTooSmall,
    /// Day of week above 7.
    WeekdayTooBig,
}

/// Errors surfaced by the registry and by configuration handling.
#[derive(Clone, Copy, Debug, PartialEq, Eq, Structural)]
pub enum ConfigError {
    /// A client report named a job id that is not configured.
    ClientNotFound,
}

pub type ConfigResult<T> = Result<T, ConfigError>;

impl ConfigError {
    /// A human-readable description.
    pub fn describe(&self) -> (r: &'static str)
        ensures
            r@ == "Client was not found in config!"@,
    {
        match self {
            ConfigError::ClientNotFound => "Client was not found in config!",
        }
    }
}

impl ScheduleError {
    /// A human-readable description, mirroring the wording used when a
    /// configuration file is rejected.
    pub fn describe(&self) -> (r: &'static str)
        ensures
            *self is MissingField ==> r@ == "Expected more time values"@,
            *self is ExtraField ==> r@ == "too many time values given"@,
            *self is InvalidNumber ==> r@ == "unable to parse u8"@,
            *self is MinuteTooBig ==> r@ == "minute int is too big"@,
            *self is HourTooBig ==> r@ == "hour int is too big"@,
            *self is DayTooBig ==> r@ == "day int is too big"@,
            *self is DayTooSmall ==> r@ == "day int is too small"@,
            *self is MonthTooBig ==> r@ == "month int is too big"@,
            *self is MonthTooSmall ==> r@ == "month int is too small"@,
            *self is WeekdayTooBig ==> r@ == "weekday int is too big"@,
    {
        match self {
            ScheduleError::MissingField => "Expected more time values",
            ScheduleError::ExtraField => "too many time values given",
            ScheduleError::InvalidNumber => "unable to parse u8",
            ScheduleError::MinuteTooBig => "minute int is too big",
            ScheduleError::HourTooBig => "hour int is too big",
            ScheduleError::DayTooBig => "day int is too big",
            ScheduleError::DayTooSmall => "day int is too small",
            ScheduleError::MonthTooBig => "month int is too big",
            ScheduleError::MonthTooSmall => "month int is too small",
            ScheduleError::WeekdayTooBig => "weekday int is too big",
        }
    }
}

} // verus!

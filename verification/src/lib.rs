//! Job-status tracking for cron-style scheduled jobs.
//!
//! A schedule is either `@reboot` or five crontab fields (minute, hour, day of
//! month, month, day of week).  A matcher decides whether a schedule is due at
//! a given calendar instant; a per-job state machine reconciles expected
//! execution windows against client reports; a registry owns all job state and
//! applies ticks and reports job by job.

pub mod clock;
pub mod error;
pub mod manager;
pub mod parse;
pub mod schedule;
pub mod status;

pub use error::{ConfigError, ConfigResult, ScheduleError};
pub use manager::JobManager;
pub use schedule::{CronExecutionTime, Instant, TimeValue};
pub use status::{ClientUpdate, Job, JobStatus, Status, Update};

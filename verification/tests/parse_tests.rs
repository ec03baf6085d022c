use crontab_status::CronExecutionTime;
use crontab_status::ScheduleError;
use crontab_status::TimeValue;

fn parse(s: &str) -> Result<CronExecutionTime, ScheduleError> {
    CronExecutionTime::parse(s)
}

#[test]
fn parse_all_wildcards() {
    assert_eq!(
        parse("* * * * *"),
        Ok(CronExecutionTime::Timing(
            TimeValue::Every,
            TimeValue::Every,
            TimeValue::Every,
            TimeValue::Every,
            TimeValue::Every,
        ))
    );
}

#[test]
fn parse_explicit_fields() {
    assert_eq!(
        parse("5 4 3 2 1"),
        Ok(CronExecutionTime::Timing(
            TimeValue::Explicit(5),
            TimeValue::Explicit(4),
            TimeValue::Explicit(3),
            TimeValue::Explicit(2),
            TimeValue::Explicit(1),
        ))
    );
}

#[test]
fn parse_extreme_valid_fields() {
    assert_eq!(
        parse("59 23 31 12 7"),
        Ok(CronExecutionTime::Timing(
            TimeValue::Explicit(59),
            TimeValue::Explicit(23),
            TimeValue::Explicit(31),
            TimeValue::Explicit(12),
            TimeValue::Explicit(7),
        ))
    );
}

#[test]
fn parse_reboot() {
    assert_eq!(parse("@reboot"), Ok(CronExecutionTime::Reboot));
}

#[test]
fn parse_month_aliases() {
    for (name, num) in [
        ("jan", 1),
        ("feb", 2),
        ("mar", 3),
        ("apr", 4),
        ("may", 5),
        ("jun", 6),
        ("jul", 7),
        ("aug", 8),
        ("sep", 9),
        ("oct", 10),
        ("nov", 11),
        ("dez", 12),
    ] {
        let text = format!("* * * {} *", name);
        assert_eq!(
            parse(&text),
            Ok(CronExecutionTime::Timing(
                TimeValue::Every,
                TimeValue::Every,
                TimeValue::Every,
                TimeValue::Explicit(num),
                TimeValue::Every,
            )),
            "alias {}",
            name
        );
    }
    // "dec" is not among the recognised month names
    assert_eq!(parse("* * * dec *"), Err(ScheduleError::InvalidNumber));
}

#[test]
fn parse_weekday_aliases() {
    for (name, num) in [
        ("sun", 0),
        ("mon", 1),
        ("tue", 2),
        ("wed", 3),
        ("thu", 4),
        ("fri", 5),
        ("sat", 6),
    ] {
        let text = format!("* * * * {}", name);
        assert_eq!(
            parse(&text),
            Ok(CronExecutionTime::Timing(
                TimeValue::Every,
                TimeValue::Every,
                TimeValue::Every,
                TimeValue::Every,
                TimeValue::Explicit(num),
            )),
            "alias {}",
            name
        );
    }
    // weekday names are only read in the weekday position
    assert_eq!(parse("sun * * * *"), Err(ScheduleError::InvalidNumber));
}

#[test]
fn parse_rejects_minute_sixty() {
    assert_eq!(parse("60 * * * *"), Err(ScheduleError::MinuteTooBig));
}

#[test]
fn parse_rejects_hour_twenty_four() {
    assert_eq!(parse("* 24 * * *"), Err(ScheduleError::HourTooBig));
}

#[test]
fn parse_rejects_day_zero() {
    assert_eq!(parse("* * 0 * *"), Err(ScheduleError::DayTooSmall));
}

#[test]
fn parse_rejects_day_thirty_two() {
    assert_eq!(parse("* * 32 * *"), Err(ScheduleError::DayTooBig));
}

#[test]
fn parse_rejects_month_zero() {
    assert_eq!(parse("* * * 0 *"), Err(ScheduleError::MonthTooSmall));
}

#[test]
fn parse_rejects_month_thirteen() {
    assert_eq!(parse("* * * 13 *"), Err(ScheduleError::MonthTooBig));
}

#[test]
fn parse_rejects_weekday_eight() {
    assert_eq!(parse("* * * * 8"), Err(ScheduleError::WeekdayTooBig));
}

#[test]
fn parse_rejects_four_fields() {
    assert_eq!(parse("* * * *"), Err(ScheduleError::MissingField));
}

#[test]
fn parse_rejects_six_fields() {
    assert_eq!(parse("* * * * * *"), Err(ScheduleError::ExtraField));
}

#[test]
fn parse_rejects_trailing_space() {
    // the trailing space opens a sixth, empty field
    assert_eq!(parse("* * * * * "), Err(ScheduleError::ExtraField));
}

#[test]
fn parse_rejects_empty_string() {
    assert_eq!(parse(""), Err(ScheduleError::InvalidNumber));
}

#[test]
fn parse_rejects_double_space() {
    // consecutive spaces produce an empty field, which is not a number
    assert_eq!(parse("*  * * * *"), Err(ScheduleError::InvalidNumber));
}

#[test]
fn parse_rejects_garbage_field() {
    assert_eq!(parse("x * * * *"), Err(ScheduleError::InvalidNumber));
    assert_eq!(parse("-1 * * * *"), Err(ScheduleError::InvalidNumber));
}

#[test]
fn parse_accepts_plus_sign_and_leading_zeros() {
    // a field is read exactly as an unsigned byte is read from text
    assert_eq!(
        parse("+5 007 * * *"),
        Ok(CronExecutionTime::Timing(
            TimeValue::Explicit(5),
            TimeValue::Explicit(7),
            TimeValue::Every,
            TimeValue::Every,
            TimeValue::Every,
        ))
    );
    assert_eq!(parse("+ * * * *"), Err(ScheduleError::InvalidNumber));
    assert_eq!(parse("++1 * * * *"), Err(ScheduleError::InvalidNumber));
}

#[test]
fn parse_rejects_value_above_byte_range() {
    assert_eq!(parse("300 * * * *"), Err(ScheduleError::InvalidNumber));
}

#[test]
fn parse_rejects_reboot_with_trailing_text() {
    assert_eq!(parse("@reboot "), Err(ScheduleError::InvalidNumber));
}

#[test]
fn error_descriptions_are_distinct() {
    let all = [
        ScheduleError::MissingField,
        ScheduleError::ExtraField,
        ScheduleError::InvalidNumber,
        ScheduleError::MinuteTooBig,
        ScheduleError::HourTooBig,
        ScheduleError::DayTooBig,
        ScheduleError::DayTooSmall,
        ScheduleError::MonthTooBig,
        ScheduleError::MonthTooSmall,
        ScheduleError::WeekdayTooBig,
    ];
    for (i, a) in all.iter().enumerate() {
        for (j, b) in all.iter().enumerate() {
            if i != j {
                assert_ne!(a.describe(), b.describe());
            }
        }
    }
}

use vstd::prelude::*;

use crate::error::ScheduleError;
use crate::schedule::{
    encodes, lemma_matches_encoding, spec_matches, CronExecutionTime, Instant, TimeValue,
};

verus! {

// ---------------------------------------------------------------------------
// Numbers: the digit strings a schedule field may carry.
// ---------------------------------------------------------------------------
pub open spec fn is_digit_char(c: char) -> bool {
    48 <= c as u32 <= 57
}

pub open spec fn digit_val(c: char) -> int {
    c as u32 - 48
}

pub open spec fn all_digits(t: Seq<char>) -> bool {
    forall|i: int| 0 <= i < t.len() ==> is_digit_char(#[trigger] t[i])
}

/// The number a digit string denotes, most significant digit first.
pub open spec fn digits_int(t: Seq<char>) -> int
    decreases t.len(),
{
    if t.len() == 0 {
        0
    } else {
        digits_int(t.drop_last()) * 10 + digit_val(t.last())
    }
}

/// What a field token denotes as a number, exactly as an unsigned byte is
/// read from text: an optional leading plus sign, then at least one digit,
/// and a value no greater than 255.
pub open spec fn parse_u8_spec(t: Seq<char>) -> Option<u8> {
    let u = if t.len() > 0 && t[0] == '+' {
        t.drop_first()
    } else {
        t
    };
    if u.len() > 0 && all_digits(u) && digits_int(u) <= 255 {
        Some(digits_int(u) as u8)
    } else {
        None
    }
}

proof fn lemma_digits_nonneg(t: Seq<char>)
    requires
        all_digits(t),
    ensures
        digits_int(t) >= 0,
    decreases t.len(),
{
    if t.len() > 0 {
        assert(all_digits(t.drop_last()));
        lemma_digits_nonneg(t.drop_last());
    }
}

/// Appending digits never shrinks the number: a prefix already above 255
/// means the whole string is above 255.
proof fn lemma_digits_prefix_le(t: Seq<char>, k: int)
    requires
        all_digits(t),
        0 <= k <= t.len(),
    ensures
        digits_int(t.take(k)) <= digits_int(t),
    decreases t.len() - k,
{
    if k == t.len() {
        assert(t.take(k) =~= t);
    } else {
        assert(t.take(k + 1).drop_last() =~= t.take(k));
        assert(all_digits(t.take(k)));
        lemma_digits_nonneg(t.take(k));
        assert(digits_int(t.take(k + 1)) == digits_int(t.take(k)) * 10 + digit_val(t[k]));
        lemma_digits_prefix_le(t, k + 1);
    }
}

/// Read a field token as a number, returning what `parse_u8_spec` says.
fn parse_u8_chars(t: &Vec<char>) -> (r: Option<u8>)
    ensures
        r == parse_u8_spec(t@),
{
    let start: usize = if t.len() > 0 && t[0] == '+' {
        1
    } else {
        0
    };
    let ghost u: Seq<char> = if t@.len() > 0 && t@[0] == '+' {
        t@.drop_first()
    } else {
        t@
    };
    proof {
        assert(u =~= t@.subrange(start as int, t@.len() as int));
    }
    if t.len() == start {
        return None;
    }
    let mut acc: u32 = 0;
    let mut j: usize = start;
    while j < t.len()
        invariant
            start <= j <= t@.len(),
            start <= 1,
            t@.len() > start,
            u == (if t@.len() > 0 && t@[0] == '+' {
                t@.drop_first()
            } else {
                t@
            }),
            u =~= t@.subrange(start as int, t@.len() as int),
            acc <= 255,
            acc == digits_int(u.take(j - start)),
            all_digits(u.take(j - start)),
        decreases t@.len() - j,
    {
        let c = t[j];
        let v = c as u32;  // a char always fits in 32 bits
        proof {
            assert(u[j - start] == t@[j as int]);
        }
        if v < 48 || v > 57 {
            proof {
                assert(!is_digit_char(u[j - start]));
            }
            return None;
        }
        let d = v - 48;
        let new_acc = acc * 10 + d;
        proof {
            assert(u.take(j - start + 1).drop_last() =~= u.take(j - start));
            assert(u.take(j - start + 1).last() == u[j - start]);
            assert(digits_int(u.take(j - start + 1)) == acc * 10 + d);
            assert(all_digits(u.take(j - start + 1)));
        }
        if new_acc > 255 {
            proof {
                if all_digits(u) {
                    lemma_digits_prefix_le(u, j - start + 1);
                }
            }
            return None;
        }
        acc = new_acc;
        j += 1;
    }
    proof {
        assert(u.take(j - start) =~= u);
    }
    Some(acc as u8)
}

// ---------------------------------------------------------------------------
// Splitting: a schedule line is cut at every single space, empty pieces kept.
// ---------------------------------------------------------------------------
/// The fields of a line: cutting at every space character, so that
/// consecutive spaces produce empty fields.  A line always has at least one
/// field; the empty line has exactly one, itself empty.
pub open spec fn split_fields(s: Seq<char>) -> Seq<Seq<char>>
    decreases s.len(),
{
    if s.len() == 0 {
        seq![Seq::<char>::empty()]
    } else {
        let rest = split_fields(s.drop_last());
        if s.last() == ' ' {
            rest + seq![Seq::<char>::empty()]
        } else {
            rest.update(rest.len() - 1, rest.last().push(s.last()))
        }
    }
}

proof fn lemma_split_len(s: Seq<char>)
    ensures
        split_fields(s).len() >= 1,
    decreases s.len(),
{
    if s.len() > 0 {
        lemma_split_len(s.drop_last());
    }
}

/// Cut a line into its fields, returning exactly `split_fields`.
fn split_chars(chars: &Vec<char>) -> (toks: Vec<Vec<char>>)
    ensures
        toks.deep_view() == split_fields(chars@),
        toks.len() >= 1,
{
    let mut toks: Vec<Vec<char>> = Vec::new();
    toks.push(Vec::new());
    proof {
        assert(chars@.take(0) =~= Seq::<char>::empty());
        assert(toks.deep_view() =~~= split_fields(chars@.take(0)));
    }
    let mut i: usize = 0;
    while i < chars.len()
        invariant
            i <= chars@.len(),
            toks.len() >= 1,
            toks.deep_view() == split_fields(chars@.take(i as int)),
        decreases chars@.len() - i,
    {
        let c = chars[i];
        let ghost prefix = chars@.take(i as int);
        let ghost old_dv = toks.deep_view();
        proof {
            assert(chars@.take(i + 1).drop_last() =~= prefix);
            assert(chars@.take(i + 1).last() == chars@[i as int]);
        }
        if c == ' ' {
            toks.push(Vec::new());
            proof {
                assert(toks.deep_view() =~~= old_dv + seq![Seq::<char>::empty()]);
            }
        } else {
            let mut lastv = match toks.pop() {
                Some(v) => v,
                None => {
                    return toks;  // unreachable: toks is never empty
                },
            };
            let ghost last_seq = lastv@;
            proof {
                assert(old_dv.last() =~= last_seq);
            }
            lastv.push(c);
            toks.push(lastv);
            proof {
                assert(toks.deep_view() =~~= old_dv.update(
                    old_dv.len() - 1,
                    old_dv.last().push(c),
                ));
            }
        }
        i += 1;
    }
    proof {
        assert(chars@.take(chars@.len() as int) =~= chars@);
        lemma_split_len(chars@);
    }
    toks
}

// ---------------------------------------------------------------------------
// Fields: wildcard, name aliases, numbers, range rules.
// ---------------------------------------------------------------------------
pub open spec fn tok1(t: Seq<char>, a: char) -> bool {
    t.len() == 1 && t[0] == a
}

pub open spec fn tok3(t: Seq<char>, a: char, b: char, c: char) -> bool {
    t.len() == 3 && t[0] == a && t[1] == b && t[2] == c
}

/// The month names a schedule may use in place of a number.
pub open spec fn month_alias(t: Seq<char>) -> Option<u8> {
    if tok3(t, 'j', 'a', 'n') {
        Some(1)
    } else if tok3(t, 'f', 'e', 'b') {
        Some(2)
    } else if tok3(t, 'm', 'a', 'r') {
        Some(3)
    } else if tok3(t, 'a', 'p', 'r') {
        Some(4)
    } else if tok3(t, 'm', 'a', 'y') {
        Some(5)
    } else if tok3(t, 'j', 'u', 'n') {
        Some(6)
    } else if tok3(t, 'j', 'u', 'l') {
        Some(7)
    } else if tok3(t, 'a', 'u', 'g') {
        Some(8)
    } else if tok3(t, 's', 'e', 'p') {
        Some(9)
    } else if tok3(t, 'o', 'c', 't') {
        Some(10)
    } else if tok3(t, 'n', 'o', 'v') {
        Some(11)
    } else if tok3(t, 'd', 'e', 'z') {
        Some(12)
    } else {
        None
    }
}

/// The weekday names a schedule may use in place of a number.
pub open spec fn weekday_alias(t: Seq<char>) -> Option<u8> {
    if tok3(t, 's', 'u', 'n') {
        Some(0)
    } else if tok3(t, 'm', 'o', 'n') {
        Some(1)
    } else if tok3(t, 't', 'u', 'e') {
        Some(2)
    } else if tok3(t, 'w', 'e', 'd') {
        Some(3)
    } else if tok3(t, 't', 'h', 'u') {
        Some(4)
    } else if tok3(t, 'f', 'r', 'i') {
        Some(5)
    } else if tok3(t, 's', 'a', 't') {
        Some(6)
    } else {
        None
    }
}

/// The range rule of field `idx` (0 minute, 1 hour, 2 day, 3 month,
/// 4 weekday), with the error each violation earns.
pub open spec fn range_check(v: u8, idx: int) -> Result<TimeValue, ScheduleError> {
    if idx == 0 {
        if v > 59 {
            Err(ScheduleError::MinuteTooBig)
        } else {
            Ok(TimeValue::Explicit(v))
        }
    } else if idx == 1 {
        if v > 23 {
            Err(ScheduleError::HourTooBig)
        } else {
            Ok(TimeValue::Explicit(v))
        }
    } else if idx == 2 {
        if v > 31 {
            Err(ScheduleError::DayTooBig)
        } else if v < 1 {
            Err(ScheduleError::DayTooSmall)
        } else {
            Ok(TimeValue::Explicit(v))
        }
    } else if idx == 3 {
        if v > 12 {
            Err(ScheduleError::MonthTooBig)
        } else if v < 1 {
            Err(ScheduleError::MonthTooSmall)
        } else {
            Ok(TimeValue::Explicit(v))
        }
    } else {
        if v > 7 {
            Err(ScheduleError::WeekdayTooBig)
        } else {
            Ok(TimeValue::Explicit(v))
        }
    }
}

/// What one field token yields at position `idx`: the wildcard, a name alias
/// (months at position 3, weekdays at position 4), or a number under the
/// position's range rule.
pub open spec fn field_spec(t: Seq<char>, idx: int) -> Result<TimeValue, ScheduleError> {
    if tok1(t, '*') {
        Ok(TimeValue::Every)
    } else {
        let num = if idx == 3 && month_alias(t) is Some {
            month_alias(t)
        } else if idx == 4 && weekday_alias(t) is Some {
            weekday_alias(t)
        } else {
            parse_u8_spec(t)
        };
        match num {
            Option::None => Err(ScheduleError::InvalidNumber),
            Option::Some(v) => range_check(v, idx),
        }
    }
}

fn tok3_exec(t: &Vec<char>, a: char, b: char, c: char) -> (r: bool)
    ensures
        r == tok3(t@, a, b, c),
{
    t.len() == 3 && t[0] == a && t[1] == b && t[2] == c
}

fn month_alias_exec(t: &Vec<char>) -> (r: Option<u8>)
    ensures
        r == month_alias(t@),
{
    if tok3_exec(t, 'j', 'a', 'n') {
        Some(1)
    } else if tok3_exec(t, 'f', 'e', 'b') {
        Some(2)
    } else if tok3_exec(t, 'm', 'a', 'r') {
        Some(3)
    } else if tok3_exec(t, 'a', 'p', 'r') {
        Some(4)
    } else if tok3_exec(t, 'm', 'a', 'y') {
        Some(5)
    } else if tok3_exec(t, 'j', 'u', 'n') {
        Some(6)
    } else if tok3_exec(t, 'j', 'u', 'l') {
        Some(7)
    } else if tok3_exec(t, 'a', 'u', 'g') {
        Some(8)
    } else if tok3_exec(t, 's', 'e', 'p') {
        Some(9)
    } else if tok3_exec(t, 'o', 'c', 't') {
        Some(10)
    } else if tok3_exec(t, 'n', 'o', 'v') {
        Some(11)
    } else if tok3_exec(t, 'd', 'e', 'z') {
        Some(12)
    } else {
        None
    }
}

fn weekday_alias_exec(t: &Vec<char>) -> (r: Option<u8>)
    ensures
        r == weekday_alias(t@),
{
    if tok3_exec(t, 's', 'u', 'n') {
        Some(0)
    } else if tok3_exec(t, 'm', 'o', 'n') {
        Some(1)
    } else if tok3_exec(t, 't', 'u', 'e') {
        Some(2)
    } else if tok3_exec(t, 'w', 'e', 'd') {
        Some(3)
    } else if tok3_exec(t, 't', 'h', 'u') {
        Some(4)
    } else if tok3_exec(t, 'f', 'r', 'i') {
        Some(5)
    } else if tok3_exec(t, 's', 'a', 't') {
        Some(6)
    } else {
        None
    }
}

fn parse_field(t: &Vec<char>, idx: usize) -> (r: Result<TimeValue, ScheduleError>)
    requires
        idx <= 4,
    ensures
        r == field_spec(t@, idx as int),
{
    if t.len() == 1 && t[0] == '*' {
        return Ok(TimeValue::Every);
    }
    let num: Option<u8> = if idx == 3 {
        match month_alias_exec(t) {
            Some(v) => Some(v),
            None => parse_u8_chars(t),
        }
    } else if idx == 4 {
        match weekday_alias_exec(t) {
            Some(v) => Some(v),
            None => parse_u8_chars(t),
        }
    } else {
        parse_u8_chars(t)
    };
    let v = match num {
        None => {
            return Err(ScheduleError::InvalidNumber);
        },
        Some(v) => v,
    };
    if idx == 0 {
        if v > 59 {
            Err(ScheduleError::MinuteTooBig)
        } else {
            Ok(TimeValue::Explicit(v))
        }
    } else if idx == 1 {
        if v > 23 {
            Err(ScheduleError::HourTooBig)
        } else {
            Ok(TimeValue::Explicit(v))
        }
    } else if idx == 2 {
        if v > 31 {
            Err(ScheduleError::DayTooBig)
        } else if v < 1 {
            Err(ScheduleError::DayTooSmall)
        } else {
            Ok(TimeValue::Explicit(v))
        }
    } else if idx == 3 {
        if v > 12 {
            Err(ScheduleError::MonthTooBig)
        } else if v < 1 {
            Err(ScheduleError::MonthTooSmall)
        } else {
            Ok(TimeValue::Explicit(v))
        }
    } else {
        if v > 7 {
            Err(ScheduleError::WeekdayTooBig)
        } else {
            Ok(TimeValue::Explicit(v))
        }
    }
}

// ---------------------------------------------------------------------------
// The whole line.
// ---------------------------------------------------------------------------
/// Whether the line is the literal restart marker `@reboot`.
pub open spec fn reboot_text(s: Seq<char>) -> bool {
    s.len() == 7 && s[0] == '@' && s[1] == 'r' && s[2] == 'e' && s[3] == 'b' && s[4] == 'o'
        && s[5] == 'o' && s[6] == 't'
}

/// What a field list yields: the fields are read left to right, each under
/// its own rule, a missing field or a failing field stopping the read; a
/// sixth field is rejected only after the first five were accepted.
pub open spec fn parse_fields(toks: Seq<Seq<char>>) -> Result<CronExecutionTime, ScheduleError> {
    if toks.len() < 1 {
        Err(ScheduleError::MissingField)
    } else {
        match field_spec(toks[0], 0) {
            Err(e) => Err(e),
            Ok(f0) => if toks.len() < 2 {
                Err(ScheduleError::MissingField)
            } else {
                match field_spec(toks[1], 1) {
                    Err(e) => Err(e),
                    Ok(f1) => if toks.len() < 3 {
                        Err(ScheduleError::MissingField)
                    } else {
                        match field_spec(toks[2], 2) {
                            Err(e) => Err(e),
                            Ok(f2) => if toks.len() < 4 {
                                Err(ScheduleError::MissingField)
                            } else {
                                match field_spec(toks[3], 3) {
                                    Err(e) => Err(e),
                                    Ok(f3) => if toks.len() < 5 {
                                        Err(ScheduleError::MissingField)
                                    } else {
                                        match field_spec(toks[4], 4) {
                                            Err(e) => Err(e),
                                            Ok(f4) => if toks.len() > 5 {
                                                Err(ScheduleError::ExtraField)
                                            } else {
                                                Ok(
                                                    CronExecutionTime::Timing(
                                                        f0,
                                                        f1,
                                                        f2,
                                                        f3,
                                                        f4,
                                                    ),
                                                )
                                            },
                                        }
                                    },
                                }
                            },
                        }
                    },
                }
            },
        }
    }
}

/// What a schedule line denotes: `@reboot`, or five space-separated fields.
pub open spec fn parse_spec(s: Seq<char>) -> Result<CronExecutionTime, ScheduleError> {
    if reboot_text(s) {
        Ok(CronExecutionTime::Reboot)
    } else {
        parse_fields(split_fields(s))
    }
}

/// An accepted field obeys its position's range rule.
proof fn lemma_field_wf(t: Seq<char>, idx: int)
    ensures
        field_spec(t, 0) matches Ok(TimeValue::Explicit(v)) ==> v <= 59,
        field_spec(t, 1) matches Ok(TimeValue::Explicit(v)) ==> v <= 23,
        field_spec(t, 2) matches Ok(TimeValue::Explicit(v)) ==> 1 <= v <= 31,
        field_spec(t, 3) matches Ok(TimeValue::Explicit(v)) ==> 1 <= v <= 12,
        field_spec(t, 4) matches Ok(TimeValue::Explicit(v)) ==> v <= 7,
{
}

/// A schedule accepted from text obeys every field's range rule: text that
/// would need a value clamped is rejected instead.
pub proof fn lemma_parse_wf(s: Seq<char>)
    ensures
        parse_spec(s) matches Ok(sch) ==> sch.wf(),
{
    if !reboot_text(s) {
        let toks = split_fields(s);
        if toks.len() >= 5 {
            lemma_field_wf(toks[0], 0);
            lemma_field_wf(toks[1], 1);
            lemma_field_wf(toks[2], 2);
            lemma_field_wf(toks[3], 3);
            lemma_field_wf(toks[4], 4);
        }
    }
}

/// Parsing then matching: a five-field schedule accepted from text is due at
/// any instant that carries exactly the values the text names.
pub proof fn lemma_parse_then_match(s: Seq<char>, t: Instant)
    requires
        parse_spec(s) matches Ok(sch) && encodes(sch, t),
    ensures
        spec_matches(parse_spec(s)->Ok_0, t),
{
    lemma_matches_encoding(parse_spec(s)->Ok_0, t);
}

impl CronExecutionTime {
    /// Read a schedule from its textual form, enforcing every field's range
    /// rule; malformed text is rejected, never clamped.
    pub fn parse(s: &str) -> (r: Result<CronExecutionTime, ScheduleError>)
        ensures
            r == parse_spec(s@),
    {
        let n = s.unicode_len();
        let mut chars: Vec<char> = Vec::new();
        let mut i: usize = 0;
        while i < n
            invariant
                n == s@.len(),
                i <= n,
                chars@ == s@.take(i as int),
            decreases n - i,
        {
            let c = s.get_char(i);
            proof {
                assert(s@.take(i + 1).drop_last() =~= s@.take(i as int));
                assert(s@.take(i + 1) =~= s@.take(i as int).push(s@[i as int]));
            }
            chars.push(c);
            i += 1;
        }
        proof {
            assert(chars@ =~= s@);
        }
        if chars.len() == 7 && chars[0] == '@' && chars[1] == 'r' && chars[2] == 'e' && chars[3]
            == 'b' && chars[4] == 'o' && chars[5] == 'o' && chars[6] == 't' {
            return Ok(CronExecutionTime::Reboot);
        }
        let toks = split_chars(&chars);
        let ghost dv = toks.deep_view();
        let f0 = match Self::field_at(&toks, 0) {
            Ok(f) => f,
            Err(e) => {
                return Err(e);
            },
        };
        let f1 = match Self::field_at(&toks, 1) {
            Ok(f) => f,
            Err(e) => {
                return Err(e);
            },
        };
        let f2 = match Self::field_at(&toks, 2) {
            Ok(f) => f,
            Err(e) => {
                return Err(e);
            },
        };
        let f3 = match Self::field_at(&toks, 3) {
            Ok(f) => f,
            Err(e) => {
                return Err(e);
            },
        };
        let f4 = match Self::field_at(&toks, 4) {
            Ok(f) => f,
            Err(e) => {
                return Err(e);
            },
        };
        if toks.len() > 5 {
            return Err(ScheduleError::ExtraField);
        }
        Ok(CronExecutionTime::Timing(f0, f1, f2, f3, f4))
    }

    /// Read field `idx` of the list, a missing field being its own error.
    fn field_at(toks: &Vec<Vec<char>>, idx: usize) -> (r: Result<TimeValue, ScheduleError>)
        requires
            idx <= 4,
        ensures
            r == (if toks.deep_view().len() < idx + 1 {
                Err::<TimeValue, ScheduleError>(ScheduleError::MissingField)
            } else {
                field_spec(toks.deep_view()[idx as int], idx as int)
            }),
    {
        if toks.len() < idx + 1 {
            return Err(ScheduleError::MissingField);
        }
        proof {
            assert(toks.deep_view()[idx as int] =~= toks@[idx as int]@);
        }
        parse_field(&toks[idx], idx)
    }
}

} // verus!

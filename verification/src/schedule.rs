//! Cron schedule handling: normalizing user-supplied crontab expressions to
//! the six/seven-field syntax the `cron` crate evaluates (shifting the
//! day-of-week numbering from crontab's 0=Sunday to the crate's 1=Sunday),
//! and computing the next run of a schedule.
//!
//! Instants are modelled as milliseconds since the Unix epoch, UTC.

use vstd::prelude::*;

verus! {

use std::str::FromStr;
use vstd::string::StringExecFns;
use vstd::string::StrSliceExecFns;
use crate::text::{
    all_digits, dec_spec, digits_val, find_char, idx_of, join_space, join_space_spec,
    lemma_digits_val_prefix, lemma_idx_of_bounds, push_str, split_char_spec, split_on, split_ws,
    split_ws_spec, str_eq, trim, trim_spec, u64_to_string, views_of,
};

/// When a job runs: a cron expression (with an optional IANA time zone), a
/// fixed instant, or a fixed interval.
pub enum Schedule {
    Cron { expr: String, tz: Option<String> },
    At { at_ms: i64 },
    Every { every_ms: u64 },
}

/// The cron expression of a schedule, if it has one.
pub fn schedule_cron_expression(schedule: &Schedule) -> (r: Option<String>)
    ensures
        match schedule {
            Schedule::Cron { expr, .. } => r matches Some(s) && s@ == expr@,
            _ => r is None,
        },
{
    match schedule {
        Schedule::Cron { expr, .. } => Some(expr.clone()),
        _ => None,
    }
}

// ---------------------------------------------------------------------------
// Day-of-week shifting
// ---------------------------------------------------------------------------

/// The digits of a decimal literal as `u8::from_str` reads it: an optional
/// leading `+` is skipped.
pub open spec fn u8_digits(s: Seq<char>) -> Seq<char> {
    if s.len() > 0 && s[0] == '+' {
        s.drop_first()
    } else {
        s
    }
}

/// Whether `u8::from_str` accepts `s`.
pub open spec fn parses_as_u8(s: Seq<char>) -> bool {
    let d = u8_digits(s);
    d.len() > 0 && all_digits(d) && digits_val(d) <= 255
}

pub open spec fn u8_value(s: Seq<char>) -> int {
    digits_val(u8_digits(s))
}

/// Reads a `u8` from decimal text, exactly as `str::parse::<u8>` does.
fn parse_u8(s: &str) -> (r: Option<u8>)
    ensures
        match r {
            Some(v) => parses_as_u8(s@) && v as int == u8_value(s@),
            None => !parses_as_u8(s@),
        },
{
    let n = s.unicode_len();
    let start: usize = if n > 0 && s.get_char(0) == '+' {
        1
    } else {
        0
    };
    let ghost d = u8_digits(s@);
    proof {
        assert(d =~= s@.subrange(start as int, n as int));
    }
    if start == n {
        return None;
    }
    let mut acc: u32 = 0;
    let mut i: usize = start;
    while i < n
        invariant
            start <= i <= n,
            n == s@.len(),
            d == u8_digits(s@),
            d =~= s@.subrange(start as int, n as int),
            acc <= 255,
            forall|j: int| 0 <= j < i - start ==> crate::text::is_digit(#[trigger] d[j]),
            acc as int == digits_val(d.take(i - start)),
        decreases n - i,
    {
        let c = s.get_char(i);
        if c < '0' || c > '9' {
            proof {
                assert(d[i - start] == s@[i as int]);
                assert(!crate::text::is_digit(d[i - start]));
            }
            return None;
        }
        let dv: u32 = (c as u32) - 48;
        proof {
            assert(crate::text::is_digit(s@[i as int]));
            assert(dv as int == crate::text::digit_of(s@[i as int]));
        }
        let next = acc * 10 + dv;
        proof {
            let t = d.take(i - start + 1);
            assert(t.drop_last() =~= d.take(i - start));
            assert(t.last() == d[i - start]);
            assert(d[i - start] == s@[i as int]);
            assert(digits_val(t) == acc as int * 10 + dv as int);
        }
        if next > 255 {
            proof {
                if all_digits(d) {
                    lemma_digits_val_prefix(d, i - start + 1);
                }
            }
            return None;
        }
        acc = next;
        i = i + 1;
    }
    proof {
        assert(d.take(n - start) =~= d);
        assert(all_digits(d));
    }
    Some(acc as u8)
}

/// The day-of-week renumbering: crontab's 0 and 7 both mean Sunday, which the
/// `cron` crate writes as 1; the other days move up by one.
pub open spec fn shift_dow(n: int) -> int {
    if n == 0 || n == 7 {
        1
    } else {
        n + 1
    }
}

pub open spec fn invalid_dow_msg(s: Seq<char>) -> Seq<char> {
    "Invalid day-of-week value: "@ + s
}

pub open spec fn dow_out_of_range_msg(n: int) -> Seq<char> {
    "Day-of-week value out of range: "@ + dec_spec(n)
}

/// The shift of a single day-of-week value, or the error it is refused with.
pub open spec fn shift_dow_value_spec(s: Seq<char>) -> Result<int, Seq<char>> {
    if !parses_as_u8(s) {
        Err(invalid_dow_msg(s))
    } else if u8_value(s) > 7 {
        Err(dow_out_of_range_msg(u8_value(s)))
    } else {
        Ok(shift_dow(u8_value(s)))
    }
}

/// Shifts one numeric day-of-week value from crontab numbering to the `cron`
/// crate's numbering.
pub fn shift_dow_value(val: &str) -> (r: Result<u8, String>)
    ensures
        match r {
            Ok(v) => shift_dow_value_spec(val@) matches Ok(n) && n == v as int,
            Err(e) => shift_dow_value_spec(val@) matches Err(m) && m == e@,
        },
{
    let n = match parse_u8(val) {
        None => {
            let mut msg = String::new();
            push_str(&mut msg, "Invalid day-of-week value: ");
            push_str(&mut msg, val);
            return Err(msg);
        },
        Some(v) => v,
    };
    if n > 7 {
        let mut msg = String::new();
        push_str(&mut msg, "Day-of-week value out of range: ");
        let digits = u64_to_string(n as u64);
        push_str(&mut msg, digits.as_str());
        return Err(msg);
    }
    if n == 0 || n == 7 {
        Ok(1)
    } else {
        Ok(n + 1)
    }
}

/// The shift of one comma-separated part: an optional `/step` suffix is kept,
/// a `*` base passes through, a `lo-hi` range has both ends shifted, and a
/// single value is shifted.
pub open spec fn shift_part_spec(part: Seq<char>) -> Result<Seq<char>, Seq<char>> {
    let k = idx_of(part, '/');
    let base = part.take(k);
    let step = part.skip(k);
    if base == "*"@ {
        Ok(base + step)
    } else {
        let j = idx_of(base, '-');
        if j < base.len() {
            match shift_dow_value_spec(base.take(j)) {
                Err(e) => Err(e),
                Ok(lo) => match shift_dow_value_spec(base.skip(j + 1)) {
                    Err(e) => Err(e),
                    Ok(hi) => Ok(dec_spec(lo) + "-"@ + dec_spec(hi) + step),
                },
            }
        } else {
            match shift_dow_value_spec(base) {
                Err(e) => Err(e),
                Ok(v) => Ok(dec_spec(v) + step),
            }
        }
    }
}

fn shift_part(part: &str) -> (r: Result<String, String>)
    ensures
        match r {
            Ok(out) => shift_part_spec(part@) matches Ok(o) && o == out@,
            Err(e) => shift_part_spec(part@) matches Err(m) && m == e@,
        },
{
    let n = part.unicode_len();
    let k = find_char(part, '/');
    proof {
        lemma_idx_of_bounds(part@, '/');
    }
    let base = part.substring_char(0, k);
    let step = part.substring_char(k, n);
    if str_eq(base, "*") {
        let mut out = base.to_owned();
        push_str(&mut out, step);
        return Ok(out);
    }
    let m = base.unicode_len();
    let j = find_char(base, '-');
    proof {
        lemma_idx_of_bounds(base@, '-');
    }
    if j < m {
        let lo = match shift_dow_value(base.substring_char(0, j)) {
            Err(e) => {
                return Err(e);
            },
            Ok(v) => v,
        };
        let hi = match shift_dow_value(base.substring_char(j + 1, m)) {
            Err(e) => {
                return Err(e);
            },
            Ok(v) => v,
        };
        let mut out = u64_to_string(lo as u64);
        push_str(&mut out, "-");
        let hi_digits = u64_to_string(hi as u64);
        push_str(&mut out, hi_digits.as_str());
        push_str(&mut out, step);
        Ok(out)
    } else {
        let v = match shift_dow_value(base) {
            Err(e) => {
                return Err(e);
            },
            Ok(v) => v,
        };
        let mut out = u64_to_string(v as u64);
        push_str(&mut out, step);
        Ok(out)
    }
}

/// The shift of a list of parts, joined with commas; the first failing part's
/// error wins.
pub open spec fn shift_parts_spec(parts: Seq<Seq<char>>) -> Result<Seq<char>, Seq<char>>
    decreases parts.len(),
{
    if parts.len() == 0 {
        Ok(Seq::<char>::empty())
    } else if parts.len() == 1 {
        shift_part_spec(parts[0])
    } else {
        match shift_part_spec(parts[0]) {
            Err(e) => Err(e),
            Ok(h) => match shift_parts_spec(parts.drop_first()) {
                Err(e) => Err(e),
                Ok(t) => Ok(h + ","@ + t),
            },
        }
    }
}

fn shift_parts_from(parts: &Vec<String>, i: usize) -> (r: Result<String, String>)
    requires
        i < parts@.len(),
    ensures
        match r {
            Ok(out) => shift_parts_spec(views_of(parts@).skip(i as int)) matches Ok(o) && o
                == out@,
            Err(e) => shift_parts_spec(views_of(parts@).skip(i as int)) matches Err(m) && m == e@,
        },
    decreases parts@.len() - i,
{
    let ghost tail = views_of(parts@).skip(i as int);
    proof {
        assert(tail[0] == parts@[i as int]@);
    }
    if i == parts.len() - 1 {
        let r = shift_part(parts[i].as_str());
        proof {
            assert(tail.len() == 1);
        }
        r
    } else {
        proof {
            assert(views_of(parts@).skip(i + 1) =~= tail.drop_first());
        }
        let h = match shift_part(parts[i].as_str()) {
            Err(e) => {
                return Err(e);
            },
            Ok(h) => h,
        };
        let t = match shift_parts_from(parts, i + 1) {
            Err(e) => {
                return Err(e);
            },
            Ok(t) => t,
        };
        let mut out = h;
        push_str(&mut out, ",");
        push_str(&mut out, t.as_str());
        Ok(out)
    }
}

/// The shift of a whole crontab day-of-week field: wildcards pass through,
/// every comma-separated part is shifted.
pub open spec fn shift_field_spec(field: Seq<char>) -> Result<Seq<char>, Seq<char>> {
    if field == "*"@ || field == "?"@ {
        Ok(field)
    } else {
        shift_parts_spec(split_char_spec(field, ','))
    }
}

/// Shifts a crontab day-of-week field (0=Sunday) to the `cron` crate's
/// numbering (1=Sunday). Handles `*`, `?`, single values, ranges, steps and
/// comma-separated lists.
pub fn shift_dow_field(field: &str) -> (r: Result<String, String>)
    ensures
        match r {
            Ok(out) => shift_field_spec(field@) matches Ok(o) && o == out@,
            Err(e) => shift_field_spec(field@) matches Err(m) && m == e@,
        },
{
    if str_eq(field, "*") || str_eq(field, "?") {
        return Ok(field.to_owned());
    }
    let parts = split_on(field, ',');
    proof {
        assert(split_char_spec(field@, ',').len() >= 1);
        assert(views_of(parts@).skip(0) =~= views_of(parts@));
    }
    shift_parts_from(&parts, 0)
}

// ---------------------------------------------------------------------------
// Expression normalization
// ---------------------------------------------------------------------------

pub open spec fn invalid_expr_field_count_msg(t: Seq<char>, count: int) -> Seq<char> {
    "Invalid cron expression: "@ + t + " (expected 5, 6, or 7 fields, got "@ + dec_spec(count)
        + ")"@
}

/// The normalization of a cron expression. A five-field crontab expression
/// gets a `0` seconds field prepended and its day-of-week field shifted; a
/// six- or seven-field expression passes through trimmed; any other field
/// count is refused.
pub open spec fn normalize_spec(expression: Seq<char>) -> Result<Seq<char>, Seq<char>> {
    let t = trim_spec(expression);
    let fields = split_ws_spec(t);
    if fields.len() == 5 {
        match shift_field_spec(fields[4]) {
            Err(e) => Err(e),
            Ok(shifted) => Ok("0 "@ + join_space_spec(fields.update(4, shifted))),
        }
    } else if fields.len() == 6 || fields.len() == 7 {
        Ok(t)
    } else {
        Err(invalid_expr_field_count_msg(t, fields.len() as int))
    }
}

/// Normalizes a cron expression to the syntax the `cron` crate evaluates,
/// proved against `normalize_spec`.
pub fn normalize_expression(expression: &str) -> (r: Result<String, String>)
    ensures
        match r {
            Ok(out) => normalize_spec(expression@) matches Ok(o) && o == out@,
            Err(e) => normalize_spec(expression@) matches Err(m) && m == e@,
        },
{
    let trimmed = trim(expression);
    let fields = split_ws(trimmed);
    let count = fields.len();
    if count == 5 {
        let shifted = match shift_dow_field(fields[4].as_str()) {
            Err(e) => {
                return Err(e);
            },
            Ok(s) => s,
        };
        let ghost shifted0 = shifted@;
        let mut joined_fields: Vec<String> = Vec::new();
        joined_fields.push(fields[0].clone());
        joined_fields.push(fields[1].clone());
        joined_fields.push(fields[2].clone());
        joined_fields.push(fields[3].clone());
        joined_fields.push(shifted);
        let joined = join_space(&joined_fields);
        let mut out = String::new();
        push_str(&mut out, "0 ");
        push_str(&mut out, joined.as_str());
        proof {
            let fv = split_ws_spec(trim_spec(expression@));
            let target = fv.update(4, shifted0);
            assert(views_of(joined_fields@).len() == target.len());
            assert(views_of(joined_fields@) =~= target);
        }
        Ok(out)
    } else if count == 6 || count == 7 {
        Ok(trimmed.to_owned())
    } else {
        let mut msg = String::new();
        push_str(&mut msg, "Invalid cron expression: ");
        push_str(&mut msg, trimmed);
        push_str(&mut msg, " (expected 5, 6, or 7 fields, got ");
        let digits = u64_to_string(count as u64);
        push_str(&mut msg, digits.as_str());
        push_str(&mut msg, ")");
        Err(msg)
    }
}

// ---------------------------------------------------------------------------
// Next occurrence
// ---------------------------------------------------------------------------

/// The instants this model covers: years 0001 through 9999, in milliseconds
/// since the Unix epoch. Well inside the range chrono can represent.
pub open spec fn valid_instant_ms(ms: int) -> bool {
    -62135596800000 <= ms <= 253402300799999
}

/// Why the `cron` crate could not evaluate an expression.
pub enum CronFault {
    InvalidExpr,
    InvalidTz,
}

pub open spec fn opt_str_view(o: Option<&str>) -> Option<Seq<char>> {
    match o {
        None => None,
        Some(s) => Some(s@),
    }
}

pub open spec fn opt_string_view(o: Option<String>) -> Option<Seq<char>> {
    match o {
        None => None,
        Some(s) => Some(s@),
    }
}

pub open spec fn opt_i64_view(o: Option<i64>) -> Option<int> {
    match o {
        None => None,
        Some(n) => Some(n as int),
    }
}

/// The next occurrence of a normalized cron expression strictly after an
/// instant, evaluated in the named time zone (UTC when none): what the `cron`
/// crate computes, a function of the arguments alone.
pub uninterp spec fn cron_next(expr: Seq<char>, tz: Option<Seq<char>>, from_ms: int) -> Option<
    int,
>;

/// Relies on `cron::Schedule::from_str` and its `after(..).next()` iterator,
/// and on `chrono_tz::Tz::from_str` with chrono's calendar arithmetic: for a
/// fixed expression, time zone and instant, the next occurrence depends on
/// the arguments alone.
#[verifier::external_body]
fn cron_next_occurrence(expr: &str, tz: Option<&str>, from_ms: i64) -> (r: Result<
    Option<i64>,
    CronFault,
>)
    requires
        valid_instant_ms(from_ms as int),
    ensures
        r matches Ok(next) ==> opt_i64_view(next) == cron_next(expr@, opt_str_view(tz), from_ms as int),
        r matches Err(f) && f is InvalidTz ==> tz is Some,
{
    let cron = cron::Schedule::from_str(expr).map_err(|_| CronFault::InvalidExpr)?;
    let from = match chrono::DateTime::<chrono::Utc>::from_timestamp_millis(from_ms) {
        None => return Ok(None),
        Some(d) => d,
    };
    match tz {
        Some(name) => {
            let zone = chrono_tz::Tz::from_str(name).map_err(|_| CronFault::InvalidTz)?;
            let local = from.with_timezone(&zone);
            Ok(cron.after(&local).next().map(|n| n.with_timezone(&chrono::Utc).timestamp_millis()))
        },
        None => Ok(cron.after(&from).next().map(|n| n.timestamp_millis())),
    }
}

pub open spec fn err_is(r: Result<i64, String>, msg: Seq<char>) -> bool {
    r matches Err(e) && e@ == msg
}

/// The full behaviour of `next_run_for_schedule`, over the schedule model.
pub open spec fn next_run_post(schedule: Schedule, from_ms: int, r: Result<i64, String>) -> bool {
    match schedule {
        Schedule::At { at_ms } => r matches Ok(n) && n == at_ms,
        Schedule::Every { every_ms } => {
            if every_ms == 0 {
                err_is(r, "Invalid schedule: every_ms must be > 0"@)
            } else if every_ms > 9223372036854775807 {
                err_is(r, "every_ms is too large"@)
            } else if !valid_instant_ms(from_ms + every_ms) {
                err_is(r, "every_ms overflowed DateTime"@)
            } else {
                r matches Ok(n) && n == from_ms + every_ms
            }
        },
        Schedule::Cron { expr, tz } => match normalize_spec(expr@) {
            Err(e) => err_is(r, e),
            Ok(norm) => match r {
                Ok(n) => cron_next(norm, opt_string_view(tz), from_ms) == Some(n as int),
                Err(e) => e@ == "Invalid cron expression: "@ + expr@ || (tz matches Some(z) && e@
                    == "Invalid IANA timezone: "@ + z@) || (cron_next(
                    norm,
                    opt_string_view(tz),
                    from_ms,
                ) is None && e@ == "No future occurrence for expression: "@ + expr@),
            },
        },
    }
}

/// The next run of a schedule strictly after `from_ms`: a cron expression is
/// normalized and handed to the `cron` crate; a fixed instant is returned as
/// it stands; an interval is added to `from_ms`, with its errors reported
/// exactly.
pub fn next_run_for_schedule(schedule: &Schedule, from_ms: i64) -> (r: Result<i64, String>)
    requires
        valid_instant_ms(from_ms as int),
    ensures
        next_run_post(*schedule, from_ms as int, r),
{
    match schedule {
        Schedule::At { at_ms } => Ok(*at_ms),
        Schedule::Every { every_ms } => {
            let every = *every_ms;
            if every == 0 {
                return Err("Invalid schedule: every_ms must be > 0".to_owned());
            }
            if every > 9223372036854775807u64 {
                return Err("every_ms is too large".to_owned());
            }
            let e = every as i64;
            if e > 253402300799999i64 - from_ms {
                return Err("every_ms overflowed DateTime".to_owned());
            }
            Ok(from_ms + e)
        },
        Schedule::Cron { expr, tz } => {
            let normalized = match normalize_expression(expr.as_str()) {
                Err(e) => {
                    return Err(e);
                },
                Ok(n) => n,
            };
            let tz_arg: Option<&str> = match tz {
                None => None,
                Some(z) => Some(z.as_str()),
            };
            match cron_next_occurrence(normalized.as_str(), tz_arg, from_ms) {
                Ok(Some(n)) => Ok(n),
                Ok(None) => {
                    let mut msg = String::new();
                    push_str(&mut msg, "No future occurrence for expression: ");
                    push_str(&mut msg, expr.as_str());
                    Err(msg)
                },
                Err(CronFault::InvalidExpr) => {
                    let mut msg = String::new();
                    push_str(&mut msg, "Invalid cron expression: ");
                    push_str(&mut msg, expr.as_str());
                    Err(msg)
                },
                Err(CronFault::InvalidTz) => {
                    let mut msg = String::new();
                    push_str(&mut msg, "Invalid IANA timezone: ");
                    match tz {
                        Some(z) => push_str(&mut msg, z.as_str()),
                        None => {},
                    }
                    Err(msg)
                },
            }
        },
    }
}

pub open spec fn unit_err_is(r: Result<(), String>, msg: Seq<char>) -> bool {
    r matches Err(e) && e@ == msg
}

/// The full behaviour of `validate_schedule`.
pub open spec fn validate_post(schedule: Schedule, now_ms: int, r: Result<(), String>) -> bool {
    match schedule {
        Schedule::At { at_ms } => {
            if at_ms <= now_ms {
                unit_err_is(r, "Invalid schedule: 'at' must be in the future"@)
            } else {
                r is Ok
            }
        },
        Schedule::Every { every_ms } => {
            if every_ms == 0 {
                unit_err_is(r, "Invalid schedule: every_ms must be > 0"@)
            } else {
                r is Ok
            }
        },
        Schedule::Cron { expr, tz } => match normalize_spec(expr@) {
            Err(e) => unit_err_is(r, e),
            Ok(norm) => match r {
                Ok(u) => cron_next(norm, opt_string_view(tz), now_ms) is Some,
                Err(e) => e@ == "Invalid cron expression: "@ + expr@ || (tz matches Some(z) && e@
                    == "Invalid IANA timezone: "@ + z@) || (cron_next(
                    norm,
                    opt_string_view(tz),
                    now_ms,
                ) is None && e@ == "No future occurrence for expression: "@ + expr@),
            },
        },
    }
}

/// Checks that a schedule is well-formed and has a future occurrence: a cron
/// expression must normalize and evaluate, a fixed instant must lie in the
/// future, an interval must be positive.
pub fn validate_schedule(schedule: &Schedule, now_ms: i64) -> (r: Result<(), String>)
    requires
        valid_instant_ms(now_ms as int),
    ensures
        validate_post(*schedule, now_ms as int, r),
{
    match schedule {
        Schedule::Cron { .. } => {
            match next_run_for_schedule(schedule, now_ms) {
                Err(e) => Err(e),
                Ok(_) => Ok(()),
            }
        },
        Schedule::At { at_ms } => {
            if *at_ms <= now_ms {
                Err("Invalid schedule: 'at' must be in the future".to_owned())
            } else {
                Ok(())
            }
        },
        Schedule::Every { every_ms } => {
            if *every_ms == 0 {
                Err("Invalid schedule: every_ms must be > 0".to_owned())
            } else {
                Ok(())
            }
        },
    }
}

} // verus!

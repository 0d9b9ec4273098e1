//! Reading attribute texts into plain attribute values.

use vstd::prelude::*;
use crate::constants::XacmlDataTypesStrings;
use crate::intermediate::{IntermediateAttributeValueType, IntermediateTypes, Value, X500Name};
use crate::text::str_eq;
use crate::xacml_types::AttributeValueWithId;
use crate::lexical::{digit_run, int_in, lemma_digit_run, lemma_split_nonempty, parse_int, scan_digits, split_by, split_chars, str_chars, string_from_chars, sub_chars, trim, trim_chars, trim_ws};

verus! {

/// A conversion of attribute data, defined on the inputs it accepts.
pub trait Transform<T, S>: Sized {
    /// The inputs on which the conversion is defined.
    spec fn accepts(in_data: T) -> bool;

    fn transform(in_data: T) -> S
        requires
            Self::accepts(in_data),
    ;
}

// ------------------------------------------------------------------
// Time spans, as the time-delta type of the calendar library counts them
// ------------------------------------------------------------------

/// The largest number of whole seconds that a time span can hold
/// (`i64::MAX` milliseconds).
pub const MAX_SPAN_SECONDS: i64 = 9223372036854775;

/// Whether a time span of `secs` whole seconds can be formed.
pub open spec fn span_ok(secs: int) -> bool {
    -MAX_SPAN_SECONDS <= secs <= MAX_SPAN_SECONDS
}

/// The span of `n` units of `unit` seconds, where it can be formed.
fn span(n: i64, unit: i64) -> (r: Option<i64>)
    requires
        1 <= unit <= 86400,
    ensures
        match r {
            Some(x) => x == n * unit && span_ok(n * unit),
            None => !span_ok(n * unit),
        },
{
    let lim: i64 = MAX_SPAN_SECONDS / unit;
    if n > lim || n < -lim {
        proof {
            assert(n * unit > MAX_SPAN_SECONDS || n * unit < -MAX_SPAN_SECONDS) by (nonlinear_arith)
                requires
                    n > lim || n < -lim,
                    lim == MAX_SPAN_SECONDS / unit,
                    1 <= unit;
        }
        None
    } else {
        proof {
            assert(-MAX_SPAN_SECONDS <= n * unit <= MAX_SPAN_SECONDS) by (nonlinear_arith)
                requires
                    -lim <= n <= lim,
                    lim == MAX_SPAN_SECONDS / unit,
                    1 <= unit;
        }
        Some(n * unit)
    }
}

/// The sum of two spans, where it can be formed.
fn span_add(a: i64, b: i64) -> (r: Option<i64>)
    requires
        span_ok(a as int),
        span_ok(b as int),
    ensures
        match r {
            Some(x) => x == a + b && span_ok(a + b),
            None => !span_ok(a + b),
        },
{
    let s = a + b;
    if -MAX_SPAN_SECONDS <= s && s <= MAX_SPAN_SECONDS {
        Some(s)
    } else {
        None
    }
}

/// The integer spelled by `cs[from..to]`, read as an `i64`.
fn read_i64(cs: &Vec<char>, from: usize, to: usize) -> (r: Option<i64>)
    requires
        from <= to <= cs.len(),
    ensures
        match r {
            Some(v) => int_in(cs@.subrange(from as int, to as int), true, i64::MIN as int, i64::MAX as int) == Some(
                v as int,
            ),
            None => int_in(cs@.subrange(from as int, to as int), true, i64::MIN as int, i64::MAX as int) is None,
        },
{
    match parse_int(cs, from, to, true, i64::MIN as i128, i64::MAX as i128) {
        Some(v) => Some(v as i64),
        None => None,
    }
}

// ------------------------------------------------------------------
// Time of day
// ------------------------------------------------------------------

/// The hours, minutes and seconds of a time text `h:m:s` (each part trimmed).
pub open spec fn time_fields(s: Seq<char>) -> Option<(int, int, int)> {
    let parts = split_by(s, seq![':']);
    if parts.len() != 3 {
        None
    } else {
        match (
            int_in(trim_ws(parts[0]), true, i64::MIN as int, i64::MAX as int),
            int_in(trim_ws(parts[1]), true, i64::MIN as int, i64::MAX as int),
            int_in(trim_ws(parts[2]), true, i64::MIN as int, i64::MAX as int),
        ) {
            (Some(h), Some(m), Some(x)) => Some((h, m, x)),
            _ => None,
        }
    }
}

/// The number of seconds since midnight that a time text stands for.
pub open spec fn time_seconds(s: Seq<char>) -> int {
    let (h, m, x) = time_fields(s)->0;
    h * 3600 + m * 60 + x
}

/// A time text that converts: three integer parts whose spans can be formed
/// and whose total lies in `[0, u32::MAX)`.
pub open spec fn time_accepted(s: Seq<char>) -> bool {
    match time_fields(s) {
        Some((h, m, x)) => span_ok(h * 3600) && span_ok(m * 60) && span_ok(x) && 0 <= h * 3600 + m * 60 + x
            < u32::MAX,
        None => false,
    }
}

/// The integer spelled by the trimmed text `cs[from..to]`, read as an `i64`.
fn read_trimmed_i64(cs: &Vec<char>, from: usize, to: usize) -> (r: Option<i64>)
    requires
        from <= to <= cs.len(),
    ensures
        match r {
            Some(v) => int_in(trim_ws(cs@.subrange(from as int, to as int)), true, i64::MIN as int, i64::MAX as int)
                == Some(v as int),
            None => int_in(trim_ws(cs@.subrange(from as int, to as int)), true, i64::MIN as int, i64::MAX as int) is None,
        },
{
    let piece = sub_chars(cs, from, to);
    let (a, b) = trim_chars(&piece);
    read_i64(&piece, a, b)
}

/// Converts a time of day `h:m:s` into seconds since midnight.
pub struct TransformTime;

impl Transform<String, u32> for TransformTime {
    open spec fn accepts(in_data: String) -> bool {
        time_accepted(in_data@)
    }

    fn transform(in_data: String) -> (r: u32)
        ensures
            r == time_seconds(in_data@),
    {
        let cs = str_chars(in_data.as_str());
        let mut seps: Vec<char> = Vec::new();
        seps.push(':');
        assert(seps@ =~= seq![':']);
        let parts = split_chars(&cs, &seps);
        let ghost sp = split_by(cs@, seps@);
        let h = read_trimmed_i64(&cs, parts[0].0, parts[0].1).unwrap();
        let m = read_trimmed_i64(&cs, parts[1].0, parts[1].1).unwrap();
        let x = read_trimmed_i64(&cs, parts[2].0, parts[2].1).unwrap();
        let hs = span(h, 3600).unwrap();
        let ms = span(m, 60).unwrap();
        let xs = span(x, 1).unwrap();
        let total = hs + ms + xs;
        total as u32
    }
}

// ------------------------------------------------------------------
// Durations
// ------------------------------------------------------------------

/// The fields of a duration text after its `P`: for each of `units` in
/// order, the digits written before that unit letter, if any.
pub open spec fn unit_fields(r: Seq<char>, units: Seq<char>, k: int) -> Option<Seq<Option<Seq<char>>>>
    decreases units.len() - k,
{
    if k < 0 || k >= units.len() {
        if r.len() == 0 {
            Some(Seq::empty())
        } else {
            None
        }
    } else {
        let d = digit_run(r, 0);
        if 0 < d < r.len() && r[d] == units[k] {
            match unit_fields(r.subrange(d + 1, r.len() as int), units, k + 1) {
                Some(rest) => Some(seq![Some(r.subrange(0, d))] + rest),
                None => None,
            }
        } else {
            match unit_fields(r, units, k + 1) {
                Some(rest) => Some(seq![None::<Seq<char>>] + rest),
                None => None,
            }
        }
    }
}

/// A duration text `[-]P` followed by the unit fields of `units`: whether
/// it is negative, and the digits of each field.
pub open spec fn duration_text(s: Seq<char>, units: Seq<char>) -> Option<(bool, Seq<Option<Seq<char>>>)> {
    let neg = s.len() > 0 && s[0] == '-';
    let p: int = if neg { 1 } else { 0 };
    if p < s.len() && s[p] == 'P' {
        match unit_fields(s.subrange(p + 1, s.len() as int), units, 0) {
            Some(f) => Some((neg, f)),
            None => None,
        }
    } else {
        None
    }
}

/// The value of an optional field, read as a `u32` (absent where it does not fit).
pub open spec fn field_u32(f: Option<Seq<char>>) -> Option<int> {
    match f {
        Some(d) => int_in(d, false, 0, u32::MAX as int),
        None => None,
    }
}

/// Reads the unit fields of `cs[from..]` for `units`.
fn read_unit_fields(cs: &Vec<char>, from: usize, units: &Vec<char>) -> (r: Option<Vec<Option<u32>>>)
    requires
        from <= cs.len(),
    ensures
        match r {
            Some(v) => unit_fields(cs@.subrange(from as int, cs.len() as int), units@, 0) matches Some(f) && v.len()
                == f.len() && f.len() == units.len() && forall|k: int|
                0 <= k < v.len() ==> (#[trigger] v@[k]) == match field_u32(f[k]) {
                    Some(x) => Some(x as u32),
                    None => None::<u32>,
                },
            None => unit_fields(cs@.subrange(from as int, cs.len() as int), units@, 0) is None,
        },
{
    let ghost u = units@;
    let mut out: Vec<Option<u32>> = Vec::new();
    let ghost mut fields: Seq<Option<Seq<char>>> = Seq::empty();
    let mut pos = from;
    let mut k: usize = 0;
    while k < units.len()
        invariant
            from <= pos <= cs.len(),
            k <= units.len(),
            u == units@,
            out.len() == k,
            fields.len() == k,
            forall|j: int| 0 <= j < k ==> (#[trigger] out@[j]) == match field_u32(fields[j]) {
                Some(x) => Some(x as u32),
                None => None::<u32>,
            },
            unit_fields(cs@.subrange(from as int, cs.len() as int), u, 0) == match unit_fields(
                cs@.subrange(pos as int, cs.len() as int),
                u,
                k as int,
            ) {
                Some(rest) => Some(fields + rest),
                None => None::<Seq<Option<Seq<char>>>>,
            },
        decreases units.len() - k,
    {
        let ghost r = cs@.subrange(pos as int, cs.len() as int);
        let d = scan_digits(cs, pos);
        proof {
            lemma_digit_run(cs@, pos as int);
            lemma_run_shift(cs@, pos as int);
        }
        if d > pos && d < cs.len() && cs[d] == units[k] {
            let v = parse_int(cs, pos, d, false, 0, u32::MAX as i128);
            let ghost digits = cs@.subrange(pos as int, d as int);
            assert(digits =~= r.subrange(0, d - pos));
            assert(cs@.subrange(d + 1, cs.len() as int) =~= r.subrange(d - pos + 1, r.len() as int));
            match v {
                Some(x) => out.push(Some(x as u32)),
                None => out.push(None),
            }
            proof {
                let old_fields = fields;
                fields = fields.push(Some(digits));
                match unit_fields(r.subrange(d - pos + 1, r.len() as int), u, k + 1) {
                    Some(rest) => {
                        assert(old_fields + (seq![Some(digits)] + rest) =~= fields + rest);
                    },
                    None => {},
                }
            }
            pos = d + 1;
        } else {
            out.push(None);
            proof {
                let old_fields = fields;
                fields = fields.push(None);
                match unit_fields(r, u, k + 1) {
                    Some(rest) => {
                        assert(old_fields + (seq![None::<Seq<char>>] + rest) =~= fields + rest);
                    },
                    None => {},
                }
            }
        }
        k = k + 1;
    }
    if pos == cs.len() {
        proof {
            assert(cs@.subrange(pos as int, cs.len() as int).len() == 0);
            assert(fields + Seq::<Option<Seq<char>>>::empty() =~= fields);
        }
        Some(out)
    } else {
        None
    }
}

/// The digit run of a suffix is the digit run of the whole, shifted.
proof fn lemma_run_shift(s: Seq<char>, p: int)
    requires
        0 <= p <= s.len(),
    ensures
        digit_run(s.subrange(p, s.len() as int), 0) == digit_run(s, p) - p,
{
    lemma_run_shift_from(s, p, p);
}

proof fn lemma_run_shift_from(s: Seq<char>, p: int, i: int)
    requires
        0 <= p <= i <= s.len(),
    ensures
        digit_run(s.subrange(p, s.len() as int), i - p) == digit_run(s, i) - p,
    decreases s.len() - i,
{
    let t = s.subrange(p, s.len() as int);
    if i < s.len() {
        assert(t[i - p] == s[i]);
        lemma_run_shift_from(s, p, i + 1);
    }
}

/// Reads a duration text `[-]P` followed by the unit fields of `units`.
fn read_duration(cs: &Vec<char>, units: &Vec<char>) -> (r: Option<(bool, Vec<Option<u32>>)>)
    ensures
        match r {
            Some((neg, v)) => duration_text(cs@, units@) matches Some((n, f)) && neg == n && v.len() == f.len()
                && forall|k: int|
                0 <= k < v.len() ==> (#[trigger] v@[k]) == match field_u32(f[k]) {
                    Some(x) => Some(x as u32),
                    None => None::<u32>,
                },
            None => duration_text(cs@, units@) is None,
        },
{
    let neg = cs.len() > 0 && cs[0] == '-';
    let p: usize = if neg { 1 } else { 0 };
    if p < cs.len() && cs[p] == 'P' {
        match read_unit_fields(cs, p + 1, units) {
            Some(v) => Some((neg, v)),
            None => None,
        }
    } else {
        None
    }
}

/// A day-time duration as written `[-]P[nD][nH][nM][nS]`.
pub struct DayTimeDuration {
    negative: bool,
    days: Option<u32>,
    hours: Option<u32>,
    minutes: Option<u32>,
    seconds: Option<u32>,
}

/// A year-month duration as written `[-]P[nY][nM]`.
pub struct YearMonthDuration {
    negative: bool,
    years: Option<u32>,
    months: Option<u32>,
}

/// The unit letters of a day-time duration.
pub open spec fn day_time_units() -> Seq<char> {
    seq!['D', 'H', 'M', 'S']
}

/// The unit letters of a year-month duration.
pub open spec fn year_month_units() -> Seq<char> {
    seq!['Y', 'M']
}

impl DayTimeDuration {
    /// The fields of a day-time duration text, each read as a `u32`
    /// (absent where it does not fit).
    fn parse(input: &str) -> (r: Option<DayTimeDuration>)
        ensures
            match r {
                Some(d) => duration_text(input@, day_time_units()) matches Some((n, f)) && d.negative == n
                    && d.days == field_opt(f[0]) && d.hours == field_opt(f[1]) && d.minutes == field_opt(f[2])
                    && d.seconds == field_opt(f[3]),
                None => duration_text(input@, day_time_units()) is None,
            },
    {
        let cs = str_chars(input);
        let mut units: Vec<char> = Vec::new();
        units.push('D');
        units.push('H');
        units.push('M');
        units.push('S');
        assert(units@ =~= day_time_units());
        match read_duration(&cs, &units) {
            Some((neg, v)) => {
                proof {
                    lemma_unit_fields_len(cs@.subrange((if neg { 1int } else { 0int }) + 1, cs@.len() as int), units@, 0);
                }
                if v.len() < 4 {
                    return None;
                }
                Some(DayTimeDuration { negative: neg, days: v[0], hours: v[1], minutes: v[2], seconds: v[3] })
            },
            None => None,
        }
    }
}

impl YearMonthDuration {
    /// The fields of a year-month duration text, each read as a `u32`
    /// (absent where it does not fit).
    fn parse(input: &str) -> (r: Option<YearMonthDuration>)
        ensures
            match r {
                Some(d) => duration_text(input@, year_month_units()) matches Some((n, f)) && d.negative == n
                    && d.years == field_opt(f[0]) && d.months == field_opt(f[1]),
                None => duration_text(input@, year_month_units()) is None,
            },
    {
        let cs = str_chars(input);
        let mut units: Vec<char> = Vec::new();
        units.push('Y');
        units.push('M');
        assert(units@ =~= year_month_units());
        match read_duration(&cs, &units) {
            Some((neg, v)) => {
                proof {
                    lemma_unit_fields_len(cs@.subrange((if neg { 1int } else { 0int }) + 1, cs@.len() as int), units@, 0);
                }
                if v.len() < 2 {
                    return None;
                }
                Some(YearMonthDuration { negative: neg, years: v[0], months: v[1] })
            },
            None => None,
        }
    }
}

/// The value of an optional field, read as a `u32`.
pub open spec fn field_opt(f: Option<Seq<char>>) -> Option<u32> {
    match field_u32(f) {
        Some(x) => Some(x as u32),
        None => None,
    }
}

proof fn lemma_unit_fields_len(r: Seq<char>, units: Seq<char>, k: int)
    requires
        0 <= k <= units.len(),
    ensures
        unit_fields(r, units, k) matches Some(f) ==> f.len() == units.len() - k,
    decreases units.len() - k,
{
    if k < units.len() {
        let d = digit_run(r, 0);
        if 0 < d < r.len() && r[d] == units[k] {
            lemma_unit_fields_len(r.subrange(d + 1, r.len() as int), units, k + 1);
        } else {
            lemma_unit_fields_len(r, units, k + 1);
        }
    }
}

/// The number of months that a year-month duration text stands for.
pub open spec fn year_month_months(s: Seq<char>) -> int {
    let (neg, f) = duration_text(s, year_month_units())->0;
    let y = match field_u32(f[0]) {
        Some(x) => x,
        None => 0,
    };
    let m = match field_u32(f[1]) {
        Some(x) => x,
        None => 0,
    };
    if neg {
        -(y * 12 + m)
    } else {
        y * 12 + m
    }
}

/// Converts a year-month duration text into a number of months.
pub struct TransformYearMonthDuration;

impl Transform<String, i64> for TransformYearMonthDuration {
    open spec fn accepts(in_data: String) -> bool {
        duration_text(in_data@, year_month_units()) is Some
    }

    fn transform(in_data: String) -> (r: i64)
        ensures
            r == year_month_months(in_data@),
    {
        let duration = YearMonthDuration::parse(in_data.as_str()).unwrap();
        let y: i64 = match duration.years {
            Some(v) => v as i64,
            None => 0,
        };
        let m: i64 = match duration.months {
            Some(v) => v as i64,
            None => 0,
        };
        let total = y * 12 + m;
        if duration.negative {
            -total
        } else {
            total
        }
    }
}

/// The time part of a day-time duration text: what follows its first `D`,
/// or zero hours, minutes and seconds where there is no `D`.
pub open spec fn day_time_clock(s: Seq<char>) -> Seq<char> {
    let parts = split_by(s, seq!['D']);
    if parts.len() > 1 {
        parts[1]
    } else {
        seq!['0', '0', 'H', '0', '0', 'M', '0', '0', 'S']
    }
}

/// The days, hours, minutes and seconds of a day-time duration text
/// `<days>D<h>H<m>M<s>S`.
pub open spec fn day_time_fields(s: Seq<char>) -> Option<(int, int, int, int)> {
    let parts = split_by(s, seq!['D']);
    let clock = split_by(day_time_clock(s), seq!['H', 'M', 'S']);
    if clock.len() < 3 {
        None
    } else {
        match (
            int_in(parts[0], true, i64::MIN as int, i64::MAX as int),
            int_in(clock[0], true, i64::MIN as int, i64::MAX as int),
            int_in(clock[1], true, i64::MIN as int, i64::MAX as int),
            int_in(clock[2], true, i64::MIN as int, i64::MAX as int),
        ) {
            (Some(d), Some(h), Some(m), Some(x)) => Some((d, h, m, x)),
            _ => None,
        }
    }
}

/// A day-time duration text that converts: four integer fields whose spans,
/// and the sums of those spans, can be formed.
pub open spec fn day_time_accepted(s: Seq<char>) -> bool {
    match day_time_fields(s) {
        Some((d, h, m, x)) => span_ok(d * 86400) && span_ok(h * 3600) && span_ok(m * 60) && span_ok(x) && span_ok(
            m * 60 + x,
        ) && span_ok(h * 3600 + m * 60 + x) && span_ok(d * 86400 + h * 3600 + m * 60 + x),
        None => false,
    }
}

/// The number of seconds that a day-time duration text stands for.
pub open spec fn day_time_seconds(s: Seq<char>) -> int {
    let (d, h, m, x) = day_time_fields(s)->0;
    d * 86400 + h * 3600 + m * 60 + x
}

/// Converts a day-time duration text into a number of seconds.
pub struct TransformDayTimeDuration;

impl Transform<String, i64> for TransformDayTimeDuration {
    open spec fn accepts(in_data: String) -> bool {
        day_time_accepted(in_data@)
    }

    fn transform(in_data: String) -> (r: i64)
        ensures
            r == day_time_seconds(in_data@),
    {
        let cs = str_chars(in_data.as_str());
        let mut dsep: Vec<char> = Vec::new();
        dsep.push('D');
        assert(dsep@ =~= seq!['D']);
        let parts = split_chars(&cs, &dsep);
        proof {
            lemma_split_nonempty(cs@, dsep@);
        }
        let days = read_i64(&cs, parts[0].0, parts[0].1).unwrap();
        let clock: Vec<char> = if parts.len() > 1 {
            sub_chars(&cs, parts[1].0, parts[1].1)
        } else {
            let z = str_chars("00H00M00S");
            proof {
                reveal_strlit("00H00M00S");
            }
            assert(z@ =~= seq!['0', '0', 'H', '0', '0', 'M', '0', '0', 'S']);
            z
        };
        assert(clock@ == day_time_clock(cs@));
        let mut tsep: Vec<char> = Vec::new();
        tsep.push('H');
        tsep.push('M');
        tsep.push('S');
        assert(tsep@ =~= seq!['H', 'M', 'S']);
        let times = split_chars(&clock, &tsep);
        let hours = read_i64(&clock, times[0].0, times[0].1).unwrap();
        let minutes = read_i64(&clock, times[1].0, times[1].1).unwrap();
        let seconds = read_i64(&clock, times[2].0, times[2].1).unwrap();
        let hs = span(hours, 3600).unwrap();
        let ms = span(minutes, 60).unwrap();
        let xs = span(seconds, 1).unwrap();
        let time_converted = span_add(hs, span_add(ms, xs).unwrap()).unwrap();
        let ds = span(days, 86400).unwrap();
        span_add(ds, time_converted).unwrap()
    }
}

// ------------------------------------------------------------------
// DNS names
// ------------------------------------------------------------------

/// A DNS name text `<digits>:[<digits>][-][<digits>]`: the host digits and
/// the digits of the start and end ports, where written.
pub open spec fn dns_text(s: Seq<char>) -> Option<(Seq<char>, Option<Seq<char>>, Option<Seq<char>>)> {
    let h = digit_run(s, 0);
    if 0 < h < s.len() && s[h] == ':' {
        let a = digit_run(s, h + 1);
        let dash = a < s.len() && s[a] == '-';
        let b0: int = if dash { a + 1 } else { a };
        let b = digit_run(s, b0);
        if b == s.len() {
            Some((
                s.subrange(0, h),
                if a > h + 1 { Some(s.subrange(h + 1, a)) } else { None },
                if b > b0 { Some(s.subrange(b0, b)) } else { None },
            ))
        } else {
            None
        }
    } else {
        None
    }
}

/// A port field read as an `i32`, or `default` where it is absent or does not fit.
pub open spec fn port_value(f: Option<Seq<char>>, default: u32) -> u32 {
    match f {
        Some(d) => match int_in(d, true, i32::MIN as int, i32::MAX as int) {
            Some(v) => v as u32,
            None => default,
        },
        None => default,
    }
}

/// The port that stands in for an absent start port.
pub const DEFAULT_START_PORT: u32 = 1;

/// The port that stands in for an absent end port (`2 ^ 16`, read as the
/// exclusive-or that the expression denotes).
pub const DEFAULT_END_PORT: u32 = 18;

/// Reads a port field `cs[from..to]` as an `i32`, or yields `default`.
fn read_port(cs: &Vec<char>, from: usize, to: usize, default: u32) -> (r: u32)
    requires
        from <= to <= cs.len(),
    ensures
        r == port_value(if to > from { Some(cs@.subrange(from as int, to as int)) } else { None }, default),
{
    if to > from {
        match parse_int(cs, from, to, true, i32::MIN as i128, i32::MAX as i128) {
            Some(v) => v as u32,
            None => default,
        }
    } else {
        default
    }
}

/// Converts a DNS name text into its host and port range.
pub struct TransformDnsName;

impl Transform<String, (String, u32, u32)> for TransformDnsName {
    open spec fn accepts(in_data: String) -> bool {
        dns_text(in_data@) is Some
    }

    fn transform(in_data: String) -> (r: (String, u32, u32))
        ensures
            ({
                let (host, start, end) = dns_text(in_data@)->0;
                r.0@ == host && r.1 == port_value(start, DEFAULT_START_PORT) && r.2 == port_value(end, DEFAULT_END_PORT)
            }),
    {
        let cs = str_chars(in_data.as_str());
        let h = scan_digits(&cs, 0);
        proof {
            lemma_digit_run(cs@, 0);
        }
        let a = scan_digits(&cs, h + 1);
        proof {
            lemma_digit_run(cs@, h + 1);
        }
        let dash = a < cs.len() && cs[a] == '-';
        let b0 = if dash { a + 1 } else { a };
        let b = scan_digits(&cs, b0);
        proof {
            lemma_digit_run(cs@, b0 as int);
        }
        let host = string_from_chars(&cs, 0, h);
        let start = read_port(&cs, h + 1, a, DEFAULT_START_PORT);
        let end = read_port(&cs, b0, b, DEFAULT_END_PORT);
        (host, start, end)
    }
}

// ------------------------------------------------------------------
// X.500 names
// ------------------------------------------------------------------

/// The attribute written before the first `=` of each comma-separated part
/// of `s`, from part `i` on, each kept once (at its first occurrence) and
/// mapped to itself, after the entries `acc`.
pub open spec fn x500_entries_from(
    parts: Seq<Seq<char>>,
    i: int,
    acc: Seq<(Seq<char>, Seq<char>)>,
) -> Seq<(Seq<char>, Seq<char>)>
    decreases parts.len() - i,
{
    if i < 0 || i >= parts.len() {
        acc
    } else {
        let k = split_by(parts[i], seq!['='])[0];
        if crate::plain_spec::has_key(acc, k) {
            x500_entries_from(parts, i + 1, acc)
        } else {
            x500_entries_from(parts, i + 1, acc.push((k, k)))
        }
    }
}

/// The entries of the X.500 name that a text converts to.
pub open spec fn x500_text_entries(s: Seq<char>) -> Seq<(Seq<char>, Seq<char>)> {
    x500_entries_from(split_by(s, seq![',']), 0, Seq::empty())
}

/// Converts an X.500 name text into a name: each comma-separated part
/// contributes the attribute written before its first `=`, bound to that
/// same attribute text.
pub struct TransformX500Name;

impl Transform<String, X500Name> for TransformX500Name {
    open spec fn accepts(in_data: String) -> bool {
        true
    }

    fn transform(in_data: String) -> (r: X500Name)
        ensures
            r.view_entries() == x500_text_entries(in_data@),
            r.wf(),
    {
        let cs = str_chars(in_data.as_str());
        let mut csep: Vec<char> = Vec::new();
        csep.push(',');
        assert(csep@ =~= seq![',']);
        let mut esep: Vec<char> = Vec::new();
        esep.push('=');
        assert(esep@ =~= seq!['=']);
        let parts = split_chars(&cs, &csep);
        let ghost sp = split_by(cs@, csep@);
        let mut entries = X500Name::new();
        let mut i: usize = 0;
        while i < parts.len()
            invariant
                i <= parts.len(),
                sp == split_by(cs@, csep@),
                parts.len() == sp.len(),
                forall|k: int| 0 <= k < parts.len() ==> (#[trigger] parts@[k]).0 <= parts@[k].1 <= cs.len()
                    && cs@.subrange(parts@[k].0 as int, parts@[k].1 as int) == sp[k],
                esep@ == seq!['='],
                x500_text_entries(cs@) == x500_entries_from(sp, i as int, entries.view_entries()),
                entries.wf(),
            decreases parts.len() - i,
        {
            let piece = sub_chars(&cs, parts[i].0, parts[i].1);
            let sub = split_chars(&piece, &esep);
            proof {
                lemma_split_nonempty(piece@, esep@);
            }
            let key = string_from_chars(&piece, sub[0].0, sub[0].1);
            if !entries.contains_key(&key) {
                let ghost before = entries.view_entries();
                let value = key.clone();
                entries.entries.push((key, value));
                assert(entries.view_entries() =~= before.push((key@, key@)));
                assert forall|a: int, b: int| 0 <= a < b < entries.view_entries().len() implies #[trigger] entries.view_entries()[a].0
                    != #[trigger] entries.view_entries()[b].0 by {
                    if b == before.len() {
                        assert(before[a].0 != key@);
                    }
                }
            }
            i = i + 1;
        }
        entries
    }
}

// ------------------------------------------------------------------
// Calendar dates
// ------------------------------------------------------------------

/// The first and last years that the calendar library represents.
pub const MIN_CALENDAR_YEAR: i32 = -262143;
pub const MAX_CALENDAR_YEAR: i32 = 262142;

pub open spec fn is_leap_year(y: int) -> bool {
    (y % 4 == 0 && y % 100 != 0) || y % 400 == 0
}

pub open spec fn days_in_month(y: int, m: int) -> int {
    if m == 2 {
        if is_leap_year(y) {
            29
        } else {
            28
        }
    } else if m == 4 || m == 6 || m == 9 || m == 11 {
        30
    } else {
        31
    }
}

/// A date of the proleptic Gregorian calendar that the calendar library represents.
pub open spec fn valid_date(y: int, m: int, d: int) -> bool {
    MIN_CALENDAR_YEAR <= y <= MAX_CALENDAR_YEAR && 1 <= m <= 12 && 1 <= d <= days_in_month(y, m)
}

/// The days of the year `y` before the first of month `m`.
pub open spec fn days_before_month(y: int, m: int) -> int {
    let base: int = if m == 1 {
        0
    } else if m == 2 {
        31
    } else if m == 3 {
        59
    } else if m == 4 {
        90
    } else if m == 5 {
        120
    } else if m == 6 {
        151
    } else if m == 7 {
        181
    } else if m == 8 {
        212
    } else if m == 9 {
        243
    } else if m == 10 {
        273
    } else if m == 11 {
        304
    } else {
        334
    };
    if m > 2 && is_leap_year(y) {
        base + 1
    } else {
        base
    }
}

/// The days from 0001-01-01 to the first day of year `y` (negative before it).
pub open spec fn days_before_year(y: int) -> int {
    365 * (y - 1) + (y - 1) / 4 - (y - 1) / 100 + (y - 1) / 400
}

/// The days from 0001-01-01 to the date `y-m-d`.
pub open spec fn days_from_ce(y: int, m: int, d: int) -> int {
    days_before_year(y) + days_before_month(y, m) + d - 1
}

/// The day after `y-m-d` in the proleptic Gregorian calendar.
pub open spec fn next_date(y: int, m: int, d: int) -> (int, int, int) {
    if d < days_in_month(y, m) {
        (y, m, d + 1)
    } else if m < 12 {
        (y, m + 1, 1)
    } else {
        (y + 1, 1, 1)
    }
}

proof fn lemma_years_step(y: int)
    ensures
        days_before_year(y + 1) == days_before_year(y) + if is_leap_year(y) {
            366int
        } else {
            365int
        },
{
    let a = y - 1;
    assert(y / 4 - a / 4 == if y % 4 == 0 { 1int } else { 0int }) by (nonlinear_arith)
        requires
            a == y - 1,
    {
        vstd::arithmetic::div_mod::lemma_fundamental_div_mod(y, 4);
        vstd::arithmetic::div_mod::lemma_fundamental_div_mod(a, 4);
    }
    assert(y / 100 - a / 100 == if y % 100 == 0 { 1int } else { 0int }) by (nonlinear_arith)
        requires
            a == y - 1,
    {
        vstd::arithmetic::div_mod::lemma_fundamental_div_mod(y, 100);
        vstd::arithmetic::div_mod::lemma_fundamental_div_mod(a, 100);
    }
    assert(y / 400 - a / 400 == if y % 400 == 0 { 1int } else { 0int }) by (nonlinear_arith)
        requires
            a == y - 1,
    {
        vstd::arithmetic::div_mod::lemma_fundamental_div_mod(y, 400);
        vstd::arithmetic::div_mod::lemma_fundamental_div_mod(a, 400);
    }
    assert(y % 400 == 0 ==> y % 100 == 0 && y % 4 == 0) by (nonlinear_arith);
    assert(y % 100 == 0 ==> y % 4 == 0) by (nonlinear_arith);
}

/// Consecutive dates are one day apart: for every valid date, the day after
/// it counts exactly one more day from 0001-01-01 (so the first of each
/// month follows the last day of the previous month, and a leap day is
/// counted only at the end of February); and 0001-01-01 itself counts zero.
pub proof fn lemma_consecutive_dates(y: int, m: int, d: int)
    requires
        1 <= m <= 12,
        1 <= d <= days_in_month(y, m),
    ensures
        days_from_ce(next_date(y, m, d).0, next_date(y, m, d).1, next_date(y, m, d).2) == days_from_ce(y, m, d) + 1,
        days_from_ce(1, 1, 1) == 0,
{
    if d == days_in_month(y, m) && m == 12 {
        lemma_years_step(y);
    }
}

/// The date (year, month, day) that the calendar library's
/// `NaiveDate::parse_from_str` reads from `s` with the format `fmt`.
pub uninterp spec fn parsed_date(s: Seq<char>, fmt: Seq<char>) -> Option<(i32, u32, u32)>;

/// The local date and time (year, month, day, hour, minute, second,
/// nanosecond) and the offset east of UTC in seconds that the calendar
/// library's `DateTime::parse_from_rfc3339` reads from `s`.
pub uninterp spec fn parsed_rfc3339(s: Seq<char>) -> Option<(i32, u32, u32, u32, u32, u32, u32, i32)>;

/// Parses a date with `chrono::NaiveDate::parse_from_str` and hands back its
/// year, month and day. Claimed: the result is `parsed_date(s, fmt)`, and a
/// parsed date is a valid date within the library's year range (an invariant
/// of `NaiveDate`).
#[verifier::external_body]
fn parse_date(s: &str, fmt: &str) -> (r: Option<(i32, u32, u32)>)
    ensures
        r == parsed_date(s@, fmt@),
        r matches Some((y, m, d)) ==> valid_date(y as int, m as int, d as int),
{
    match chrono::NaiveDate::parse_from_str(s, fmt) {
        Ok(d) => Some((chrono::Datelike::year(&d), chrono::Datelike::month(&d), chrono::Datelike::day(&d))),
        Err(_) => None,
    }
}

/// Parses an RFC 3339 date-time with `chrono::DateTime::parse_from_rfc3339`
/// and hands back its local fields and its offset. Claimed: the result is
/// `parsed_rfc3339(s)`; the date is valid, the hour, minute and second are in
/// range, the nanosecond is below two seconds' worth (a leap second is held
/// there) and the offset is less than a day (invariants of `NaiveDateTime`
/// and `FixedOffset`).
#[verifier::external_body]
fn parse_rfc3339(s: &str) -> (r: Option<(i32, u32, u32, u32, u32, u32, u32, i32)>)
    ensures
        r == parsed_rfc3339(s@),
        r matches Some((y, m, d, h, mi, sec, n, off)) ==> valid_date(y as int, m as int, d as int) && h < 24 && mi
            < 60 && sec < 60 && n < 2_000_000_000 && -86400 < off < 86400,
{
    match chrono::DateTime::parse_from_rfc3339(s) {
        Ok(dt) => Some((
            chrono::Datelike::year(&dt),
            chrono::Datelike::month(&dt),
            chrono::Datelike::day(&dt),
            chrono::Timelike::hour(&dt),
            chrono::Timelike::minute(&dt),
            chrono::Timelike::second(&dt),
            chrono::Timelike::nanosecond(&dt),
            dt.offset().local_minus_utc(),
        )),
        Err(_) => None,
    }
}

/// The days from 0001-01-01 to a valid date.
fn date_days(y: i32, m: u32, d: u32) -> (r: i64)
    requires
        valid_date(y as int, m as int, d as int),
    ensures
        r == days_from_ce(y as int, m as int, d as int),
{
    // shift the year by a whole number of 400-year cycles so that every
    // quantity divided below is non-negative
    let t: i64 = (y as i64) - 1 + 400000;
    let ghost a: int = y as int - 1;
    proof {
        assert(t / 4 == a / 4 + 100000) by (nonlinear_arith)
            requires
                t == a + 400000;
        assert(t / 100 == a / 100 + 4000) by (nonlinear_arith)
            requires
                t == a + 400000;
        assert(t / 400 == a / 400 + 1000) by (nonlinear_arith)
            requires
                t == a + 400000;
    }
    let u: i64 = (y as i64) + 400000;
    proof {
        assert(u % 4 == (y as int) % 4) by (nonlinear_arith)
            requires
                u == y + 400000;
        assert(u % 100 == (y as int) % 100) by (nonlinear_arith)
            requires
                u == y + 400000;
        assert(u % 400 == (y as int) % 400) by (nonlinear_arith)
            requires
                u == y + 400000;
    }
    let leap = (u % 4 == 0 && u % 100 != 0) || u % 400 == 0;
    let base: i64 = match m {
        1 => 0,
        2 => 31,
        3 => 59,
        4 => 90,
        5 => 120,
        6 => 151,
        7 => 181,
        8 => 212,
        9 => 243,
        10 => 273,
        11 => 304,
        _ => 334,
    };
    let before_month: i64 = if m > 2 && leap { base + 1 } else { base };
    let before_year: i64 = 365 * ((y as i64) - 1) + (t / 4 - 100000) - (t / 100 - 4000) + (t / 400 - 1000);
    before_year + before_month + (d as i64) - 1
}

/// The seconds from 0001-01-01T00:00:00 to midnight of a date text `YYYY-MM-DD`.
pub open spec fn date_seconds(s: Seq<char>) -> int {
    let (y, m, d) = parsed_date(s, "%Y-%m-%d"@)->0;
    days_from_ce(y as int, m as int, d as int) * 86400
}

/// Converts a date into seconds since 0001-01-01T00:00:00.
pub struct TransformDate;

impl Transform<String, i64> for TransformDate {
    open spec fn accepts(in_data: String) -> bool {
        parsed_date(in_data@, "%Y-%m-%d"@) is Some
    }

    fn transform(in_data: String) -> (r: i64)
        ensures
            r == date_seconds(in_data@),
    {
        let (y, m, d) = parse_date(in_data.as_str(), "%Y-%m-%d").unwrap();
        let days = date_days(y, m, d);
        proof {
            assert(-100000000 < days < 100000000) by (nonlinear_arith)
                requires
                    days == days_from_ce(y as int, m as int, d as int),
                    valid_date(y as int, m as int, d as int);
        }
        days * 86400
    }
}

/// The whole seconds from 0001-01-01T00:00:00 UTC to the instant that an
/// RFC 3339 text stands for, counted as the calendar library counts a time
/// span (toward zero).
pub open spec fn date_time_seconds(s: Seq<char>) -> int {
    let (y, m, d, h, mi, sec, n, off) = parsed_rfc3339(s)->0;
    let total = days_from_ce(y as int, m as int, d as int) * 86400 + h * 3600 + mi * 60 + sec + n / 1_000_000_000
        - off;
    if total < 0 && n % 1_000_000_000 > 0 {
        total + 1
    } else {
        total
    }
}

/// Converts an RFC 3339 date-time into seconds since 0001-01-01T00:00:00 UTC.
pub struct TransformDateTime;

impl Transform<String, i64> for TransformDateTime {
    open spec fn accepts(in_data: String) -> bool {
        parsed_rfc3339(in_data@) is Some
    }

    fn transform(in_data: String) -> (r: i64)
        ensures
            r == date_time_seconds(in_data@),
    {
        let (y, m, d, h, mi, sec, n, off) = parse_rfc3339(in_data.as_str()).unwrap();
        let days = date_days(y, m, d);
        proof {
            assert(-100000000 < days < 100000000) by (nonlinear_arith)
                requires
                    days == days_from_ce(y as int, m as int, d as int),
                    valid_date(y as int, m as int, d as int);
        }
        let total: i64 = days * 86400 + (h as i64) * 3600 + (mi as i64) * 60 + (sec as i64) + (n / 1_000_000_000) as i64
            - (off as i64);
        if total < 0 && n % 1_000_000_000 > 0 {
            total + 1
        } else {
            total
        }
    }
}

// ------------------------------------------------------------------
// Attribute values
// ------------------------------------------------------------------

/// The UTF-8 encoding of a character: one byte below U+0080, then two,
/// three or four bytes, a lead byte followed by 6-bit continuation bytes.
pub open spec fn utf8_char(c: char) -> Seq<u8> {
    let n = c as int;
    if n < 0x80 {
        seq![n as u8]
    } else if n < 0x800 {
        seq![(0xc0 + n / 64) as u8, (0x80 + n % 64) as u8]
    } else if n < 0x10000 {
        seq![(0xe0 + n / 4096) as u8, (0x80 + (n / 64) % 64) as u8, (0x80 + n % 64) as u8]
    } else {
        seq![
            (0xf0 + n / 262144) as u8,
            (0x80 + (n / 4096) % 64) as u8,
            (0x80 + (n / 64) % 64) as u8,
            (0x80 + n % 64) as u8,
        ]
    }
}

/// The UTF-8 encoding of a string: the encodings of its characters, in order.
pub open spec fn utf8_encode(s: Seq<char>) -> Seq<u8>
    decreases s.len(),
{
    if s.len() == 0 {
        Seq::empty()
    } else {
        utf8_encode(s.drop_last()) + utf8_char(s.last())
    }
}

/// The bytes of a string (`String::into_bytes`): its UTF-8 encoding.
#[verifier::external_body]
fn string_into_bytes(s: String) -> (r: Vec<u8>)
    ensures
        r@ == utf8_encode(s@),
{
    s.into_bytes()
}

/// Whether the trimmed text `s` of an attribute value of data type `t` converts.
pub open spec fn attribute_text_accepted(t: XacmlDataTypesStrings, s: Seq<char>) -> bool {
    match t {
        XacmlDataTypesStrings::Time => time_accepted(s),
        XacmlDataTypesStrings::Date => parsed_date(s, "%Y-%m-%d"@) is Some,
        XacmlDataTypesStrings::DateTime => parsed_rfc3339(s) is Some,
        XacmlDataTypesStrings::DayTimeDuration => day_time_accepted(s),
        XacmlDataTypesStrings::YearMonthDuration => duration_text(s, year_month_units()) is Some,
        XacmlDataTypesStrings::Integer => int_in(s, true, i64::MIN as int, i64::MAX as int) is Some,
        XacmlDataTypesStrings::Double => int_in(s, true, i128::MIN as int, i128::MAX as int) is Some,
        XacmlDataTypesStrings::DnsName => dns_text(s) is Some,
        XacmlDataTypesStrings::Rfc822Name => split_by(s, seq!['@']).len() >= 2,
        _ => true,
    }
}

/// The plain value that the trimmed text `s` of an attribute value of data
/// type `t` converts to.
pub open spec fn attribute_value_of(t: XacmlDataTypesStrings, s: Seq<char>) -> Value {
    match t {
        XacmlDataTypesStrings::String => Value::Str(s),
        XacmlDataTypesStrings::Time => Value::Time(time_seconds(s) as u32),
        XacmlDataTypesStrings::Date => Value::Date(date_seconds(s) as i64),
        XacmlDataTypesStrings::DateTime => Value::DateTime(date_time_seconds(s) as i64),
        XacmlDataTypesStrings::DayTimeDuration => Value::DayTimeDuration(day_time_seconds(s) as i64),
        XacmlDataTypesStrings::YearMonthDuration => Value::YearMonthDuration(year_month_months(s) as i64),
        XacmlDataTypesStrings::Integer => Value::Integer(int_in(s, true, i64::MIN as int, i64::MAX as int)->0 as i64),
        XacmlDataTypesStrings::Double => Value::Double(int_in(s, true, i128::MIN as int, i128::MAX as int)->0 as i128),
        XacmlDataTypesStrings::Boolean => Value::Boolean(s == "True"@),
        XacmlDataTypesStrings::Base64Binary => Value::Base64Binary(utf8_encode(s)),
        XacmlDataTypesStrings::DnsName => {
            let (host, start, end) = dns_text(s)->0;
            Value::DnsName(host, port_value(start, DEFAULT_START_PORT), port_value(end, DEFAULT_END_PORT))
        },
        XacmlDataTypesStrings::HexBinary => Value::HexBinary(utf8_encode(s)),
        XacmlDataTypesStrings::IpAddress => Value::IpAddress(s),
        XacmlDataTypesStrings::Rfc822Name => {
            let parts = split_by(s, seq!['@']);
            Value::Rfc822Name(parts[0], parts[1])
        },
        XacmlDataTypesStrings::X500Name => Value::X500Name(x500_text_entries(s)),
        XacmlDataTypesStrings::AnyUri => Value::AnyUri(s),
    }
}

/// Whether an attribute value converts: its data type is known, it has a
/// text, and the trimmed text converts.
pub open spec fn attribute_accepted(a: AttributeValueWithId) -> bool {
    match XacmlDataTypesStrings::spec_from_identifier(a.att_val.data_type@) {
        Some(t) => match a.att_val.text {
            Some(x) => attribute_text_accepted(t, trim_ws(x@)),
            None => false,
        },
        None => false,
    }
}

/// The plain value that an accepted attribute value converts to.
pub open spec fn attribute_converted(a: AttributeValueWithId) -> Value {
    attribute_value_of(
        XacmlDataTypesStrings::spec_from_identifier(a.att_val.data_type@)->0,
        trim_ws(a.att_val.text->0@),
    )
}

/// Converts the trimmed text `s` of an attribute value of data type `t`.
fn convert_text(t: XacmlDataTypesStrings, s: String) -> (r: IntermediateTypes)
    requires
        attribute_text_accepted(t, s@),
    ensures
        r.value() == attribute_value_of(t, s@),
{
    match t {
        XacmlDataTypesStrings::String => IntermediateTypes::String(s),
        XacmlDataTypesStrings::Time => IntermediateTypes::Time(TransformTime::transform(s)),
        XacmlDataTypesStrings::Date => IntermediateTypes::Date(TransformDate::transform(s)),
        XacmlDataTypesStrings::DateTime => IntermediateTypes::DateTime(TransformDateTime::transform(s)),
        XacmlDataTypesStrings::DayTimeDuration => IntermediateTypes::DayTimeDuration(
            TransformDayTimeDuration::transform(s),
        ),
        XacmlDataTypesStrings::YearMonthDuration => IntermediateTypes::YearMonthDuration(
            TransformYearMonthDuration::transform(s),
        ),
        XacmlDataTypesStrings::Integer => {
            let cs = str_chars(s.as_str());
            assert(cs@.subrange(0, cs.len() as int) =~= s@);
            let v = parse_int(&cs, 0, cs.len(), true, i64::MIN as i128, i64::MAX as i128).unwrap();
            IntermediateTypes::Integer(v as i64)
        },
        XacmlDataTypesStrings::Double => {
            let cs = str_chars(s.as_str());
            assert(cs@.subrange(0, cs.len() as int) =~= s@);
            let v = parse_int(&cs, 0, cs.len(), true, i128::MIN, i128::MAX).unwrap();
            IntermediateTypes::Double(v)
        },
        XacmlDataTypesStrings::Boolean => IntermediateTypes::Boolean(str_eq(s.as_str(), "True")),
        XacmlDataTypesStrings::Base64Binary => IntermediateTypes::Base64Binary(string_into_bytes(s)),
        XacmlDataTypesStrings::DnsName => {
            let (hostname, startport, endport) = TransformDnsName::transform(s);
            IntermediateTypes::DnsName(hostname, startport, endport)
        },
        XacmlDataTypesStrings::HexBinary => IntermediateTypes::HexBinary(string_into_bytes(s)),
        XacmlDataTypesStrings::IpAddress => IntermediateTypes::IpAddress(s),
        XacmlDataTypesStrings::Rfc822Name => {
            let cs = str_chars(s.as_str());
            let mut at: Vec<char> = Vec::new();
            at.push('@');
            assert(at@ =~= seq!['@']);
            let parts = split_chars(&cs, &at);
            let local_part = string_from_chars(&cs, parts[0].0, parts[0].1);
            let domain_part = string_from_chars(&cs, parts[1].0, parts[1].1);
            IntermediateTypes::Rfc822Name(local_part, domain_part)
        },
        XacmlDataTypesStrings::X500Name => IntermediateTypes::X500Name(TransformX500Name::transform(s)),
        XacmlDataTypesStrings::AnyUri => IntermediateTypes::AnyUri(s),
    }
}

impl<'a> Transform<&'a AttributeValueWithId, IntermediateAttributeValueType> for IntermediateAttributeValueType {
    open spec fn accepts(in_data: &'a AttributeValueWithId) -> bool {
        attribute_accepted(*in_data)
    }

    /// Converts an attribute value of a policy or request into a plain
    /// value of its data type, read from its trimmed text.
    fn transform(in_data: &'a AttributeValueWithId) -> (r: IntermediateAttributeValueType)
        ensures
            r.data_type@ == in_data.att_val.data_type@,
            r.att_id@ == in_data.id@,
            r.text.value() == attribute_converted(*in_data),
    {
        let t = match XacmlDataTypesStrings::from_str(in_data.att_val.data_type.as_str()) {
            Ok(t) => t,
            Err(_) => vstd::pervasive::unreached(),
        };
        let text = match &in_data.att_val.text {
            Some(x) => trim(x.as_str()),
            None => vstd::pervasive::unreached(),
        };
        IntermediateAttributeValueType {
            data_type: in_data.att_val.data_type.clone(),
            att_id: in_data.id.clone(),
            text: convert_text(t, text),
        }
    }
}

/// Whether a time text converts.
fn time_text_accepted(in_data: &str) -> (r: bool)
    ensures
        r == time_accepted(in_data@),
{
    let cs = str_chars(in_data);
    let mut seps: Vec<char> = Vec::new();
    seps.push(':');
    assert(seps@ =~= seq![':']);
    let parts = split_chars(&cs, &seps);
    if parts.len() != 3 {
        return false;
    }
    let h = match read_trimmed_i64(&cs, parts[0].0, parts[0].1) {
        Some(v) => v,
        None => return false,
    };
    let m = match read_trimmed_i64(&cs, parts[1].0, parts[1].1) {
        Some(v) => v,
        None => return false,
    };
    let x = match read_trimmed_i64(&cs, parts[2].0, parts[2].1) {
        Some(v) => v,
        None => return false,
    };
    let hs = match span(h, 3600) {
        Some(v) => v,
        None => return false,
    };
    let ms = match span(m, 60) {
        Some(v) => v,
        None => return false,
    };
    let xs = match span(x, 1) {
        Some(v) => v,
        None => return false,
    };
    let total = hs + ms + xs;
    0 <= total && total < 4294967295
}

/// Whether a day-time duration text converts.
fn day_time_text_accepted(in_data: &str) -> (r: bool)
    ensures
        r == day_time_accepted(in_data@),
{
    let cs = str_chars(in_data);
    let mut dsep: Vec<char> = Vec::new();
    dsep.push('D');
    assert(dsep@ =~= seq!['D']);
    let parts = split_chars(&cs, &dsep);
    proof {
        lemma_split_nonempty(cs@, dsep@);
    }
    let clock: Vec<char> = if parts.len() > 1 {
        sub_chars(&cs, parts[1].0, parts[1].1)
    } else {
        let z = str_chars("00H00M00S");
        proof {
            reveal_strlit("00H00M00S");
        }
        assert(z@ =~= seq!['0', '0', 'H', '0', '0', 'M', '0', '0', 'S']);
        z
    };
    assert(clock@ == day_time_clock(cs@));
    let mut tsep: Vec<char> = Vec::new();
    tsep.push('H');
    tsep.push('M');
    tsep.push('S');
    assert(tsep@ =~= seq!['H', 'M', 'S']);
    let times = split_chars(&clock, &tsep);
    if times.len() < 3 {
        return false;
    }
    let days = match read_i64(&cs, parts[0].0, parts[0].1) {
        Some(v) => v,
        None => return false,
    };
    let hours = match read_i64(&clock, times[0].0, times[0].1) {
        Some(v) => v,
        None => return false,
    };
    let minutes = match read_i64(&clock, times[1].0, times[1].1) {
        Some(v) => v,
        None => return false,
    };
    let seconds = match read_i64(&clock, times[2].0, times[2].1) {
        Some(v) => v,
        None => return false,
    };
    let hs = match span(hours, 3600) {
        Some(v) => v,
        None => return false,
    };
    let ms = match span(minutes, 60) {
        Some(v) => v,
        None => return false,
    };
    let xs = match span(seconds, 1) {
        Some(v) => v,
        None => return false,
    };
    let ds = match span(days, 86400) {
        Some(v) => v,
        None => return false,
    };
    let mx = match span_add(ms, xs) {
        Some(v) => v,
        None => return false,
    };
    let t = match span_add(hs, mx) {
        Some(v) => v,
        None => return false,
    };
    span_add(ds, t).is_some()
}

/// Whether a DNS name text follows its grammar.
fn dns_text_accepted(in_data: &str) -> (r: bool)
    ensures
        r == (dns_text(in_data@) is Some),
{
    let cs = str_chars(in_data);
    let h = scan_digits(&cs, 0);
    proof {
        lemma_digit_run(cs@, 0);
    }
    if !(0 < h && h < cs.len() && cs[h] == ':') {
        return false;
    }
    let a = scan_digits(&cs, h + 1);
    proof {
        lemma_digit_run(cs@, h + 1);
    }
    let dash = a < cs.len() && cs[a] == '-';
    let b0 = if dash {
        a + 1
    } else {
        a
    };
    let b = scan_digits(&cs, b0);
    b == cs.len()
}

/// Whether the trimmed text `s` of an attribute value of data type `t` converts.
fn text_accepted(t: XacmlDataTypesStrings, s: &String) -> (r: bool)
    ensures
        r == attribute_text_accepted(t, s@),
{
    match t {
        XacmlDataTypesStrings::Time => time_text_accepted(s.as_str()),
        XacmlDataTypesStrings::Date => parse_date(s.as_str(), "%Y-%m-%d").is_some(),
        XacmlDataTypesStrings::DateTime => parse_rfc3339(s.as_str()).is_some(),
        XacmlDataTypesStrings::DayTimeDuration => day_time_text_accepted(s.as_str()),
        XacmlDataTypesStrings::YearMonthDuration => YearMonthDuration::parse(s.as_str()).is_some(),
        XacmlDataTypesStrings::Integer => {
            let cs = str_chars(s.as_str());
            assert(cs@.subrange(0, cs.len() as int) =~= s@);
            parse_int(&cs, 0, cs.len(), true, i64::MIN as i128, i64::MAX as i128).is_some()
        },
        XacmlDataTypesStrings::Double => {
            let cs = str_chars(s.as_str());
            assert(cs@.subrange(0, cs.len() as int) =~= s@);
            parse_int(&cs, 0, cs.len(), true, i128::MIN, i128::MAX).is_some()
        },
        XacmlDataTypesStrings::DnsName => dns_text_accepted(s.as_str()),
        XacmlDataTypesStrings::Rfc822Name => {
            let cs = str_chars(s.as_str());
            let mut at: Vec<char> = Vec::new();
            at.push('@');
            assert(at@ =~= seq!['@']);
            let parts = split_chars(&cs, &at);
            parts.len() >= 2
        },
        _ => true,
    }
}

impl IntermediateAttributeValueType {
    /// Converts an attribute value where it converts: `None` exactly where
    /// its data type is unknown, it has no text, or its trimmed text does not
    /// convert.
    pub fn try_transform(in_data: &AttributeValueWithId) -> (r: Option<IntermediateAttributeValueType>)
        ensures
            r is Some <==> attribute_accepted(*in_data),
            r matches Some(v) ==> v.data_type@ == in_data.att_val.data_type@ && v.att_id@ == in_data.id@
                && v.text.value() == attribute_converted(*in_data),
    {
        let t = match XacmlDataTypesStrings::from_str(in_data.att_val.data_type.as_str()) {
            Ok(t) => t,
            Err(_) => return None,
        };
        let text = match &in_data.att_val.text {
            Some(x) => trim(x.as_str()),
            None => return None,
        };
        if text_accepted(t, &text) {
            Some(IntermediateAttributeValueType::transform(in_data))
        } else {
            None
        }
    }
}

impl TransformDate {
    /// Converts a date text where it parses: `None` exactly where it does not.
    pub fn try_transform(in_data: String) -> (r: Option<i64>)
        ensures
            r is Some <==> parsed_date(in_data@, "%Y-%m-%d"@) is Some,
            r matches Some(v) ==> v == date_seconds(in_data@),
    {
        if parse_date(in_data.as_str(), "%Y-%m-%d").is_some() {
            Some(TransformDate::transform(in_data))
        } else {
            None
        }
    }
}

impl TransformDateTime {
    /// Converts an RFC 3339 text where it parses: `None` exactly where it
    /// does not.
    pub fn try_transform(in_data: String) -> (r: Option<i64>)
        ensures
            r is Some <==> parsed_rfc3339(in_data@) is Some,
            r matches Some(v) ==> v == date_time_seconds(in_data@),
    {
        if parse_rfc3339(in_data.as_str()).is_some() {
            Some(TransformDateTime::transform(in_data))
        } else {
            None
        }
    }
}

/// Converts every attribute value of a loadout, keeping their keys.
pub struct TransformLoadout;

impl Transform<Vec<(u128, AttributeValueWithId)>, Vec<(u128, IntermediateAttributeValueType)>> for TransformLoadout {
    open spec fn accepts(in_data: Vec<(u128, AttributeValueWithId)>) -> bool {
        forall|i: int| 0 <= i < in_data.len() ==> attribute_accepted(#[trigger] in_data@[i].1)
    }

    fn transform(in_data: Vec<(u128, AttributeValueWithId)>) -> (r: Vec<(u128, IntermediateAttributeValueType)>)
        ensures
            r.len() == in_data.len(),
            forall|i: int|
                0 <= i < r.len() ==> (#[trigger] r@[i]).0 == in_data@[i].0 && r@[i].1.data_type@
                    == in_data@[i].1.att_val.data_type@ && r@[i].1.att_id@ == in_data@[i].1.id@ && r@[i].1.text.value()
                    == attribute_converted(in_data@[i].1),
    {
        let mut out: Vec<(u128, IntermediateAttributeValueType)> = Vec::new();
        let mut i: usize = 0;
        while i < in_data.len()
            invariant
                i <= in_data.len(),
                out.len() == i,
                forall|j: int| 0 <= j < in_data.len() ==> attribute_accepted(#[trigger] in_data@[j].1),
                forall|j: int|
                    0 <= j < i ==> (#[trigger] out@[j]).0 == in_data@[j].0 && out@[j].1.data_type@
                        == in_data@[j].1.att_val.data_type@ && out@[j].1.att_id@ == in_data@[j].1.id@
                        && out@[j].1.text.value() == attribute_converted(in_data@[j].1),
            decreases in_data.len() - i,
        {
            let v = IntermediateAttributeValueType::transform(&in_data[i].1);
            out.push((in_data[i].0, v));
            i = i + 1;
        }
        out
    }
}

impl TransformLoadout {
    /// Converts every attribute value of a loadout where each converts,
    /// keeping their keys: `None` exactly where some value does not convert.
    pub fn try_transform(in_data: Vec<(u128, AttributeValueWithId)>) -> (r: Option<Vec<(u128, IntermediateAttributeValueType)>>)
        ensures
            r is Some <==> forall|i: int| 0 <= i < in_data.len() ==> attribute_accepted(#[trigger] in_data@[i].1),
            r matches Some(out) ==> out.len() == in_data.len() && forall|i: int|
                0 <= i < out.len() ==> (#[trigger] out@[i]).0 == in_data@[i].0 && out@[i].1.data_type@
                    == in_data@[i].1.att_val.data_type@ && out@[i].1.att_id@ == in_data@[i].1.id@
                    && out@[i].1.text.value() == attribute_converted(in_data@[i].1),
    {
        let mut out: Vec<(u128, IntermediateAttributeValueType)> = Vec::new();
        let mut i: usize = 0;
        while i < in_data.len()
            invariant
                i <= in_data.len(),
                out.len() == i,
                forall|j: int| 0 <= j < i ==> attribute_accepted(#[trigger] in_data@[j].1),
                forall|j: int|
                    0 <= j < i ==> (#[trigger] out@[j]).0 == in_data@[j].0 && out@[j].1.data_type@
                        == in_data@[j].1.att_val.data_type@ && out@[j].1.att_id@ == in_data@[j].1.id@
                        && out@[j].1.text.value() == attribute_converted(in_data@[j].1),
            decreases in_data.len() - i,
        {
            match IntermediateAttributeValueType::try_transform(&in_data[i].1) {
                Some(v) => out.push((in_data[i].0, v)),
                None => return None,
            }
            i = i + 1;
        }
        Some(out)
    }
}

} // verus!

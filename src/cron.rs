//! Parsing of five-field cron expressions into cron schedules.

use crate::schedule::{CronSchedule, ScheduleError};
use vstd::prelude::*;

verus! {

/// The characters of `s`.
pub(crate) fn chars_of(s: &str) -> (r: Vec<char>)
    ensures
        r@ == s@,
{
    let n = s.unicode_len();
    let mut out: Vec<char> = Vec::new();
    let mut i: usize = 0;
    while i < n
        invariant
            n == s@.len(),
            0 <= i <= n,
            out@ == s@.subrange(0, i as int),
        decreases n - i,
    {
        out.push(s.get_char(i));
        i = i + 1;
    }
    assert(out@ =~= s@);
    out
}

/// Whether `ch` is a decimal digit.
pub open spec fn is_digit(ch: char) -> bool {
    '0' <= ch && ch <= '9'
}

/// The decimal value of the digits `c[a..b]`.
pub open spec fn digits_value(c: Seq<char>, a: int, b: int) -> int
    decreases b - a,
{
    if b <= a {
        0
    } else {
        digits_value(c, a, b - 1) * 10 + ((c[b - 1] as u32) - ('0' as u32))
    }
}

/// The number spelled by `c[a..b]`: one to four decimal digits.
pub open spec fn number_at(c: Seq<char>, a: int, b: int) -> Option<int> {
    if 1 <= b - a <= 4 && (forall|k: int| a <= k < b ==> is_digit(#[trigger] c[k])) {
        Some(digits_value(c, a, b))
    } else {
        None
    }
}

/// The first position of `ch` in `c[a..b]`, or `b`.
pub open spec fn first_index(c: Seq<char>, a: int, b: int, ch: char) -> int
    decreases b - a,
{
    if a >= b {
        b
    } else if c[a] == ch {
        a
    } else {
        first_index(c, a + 1, b, ch)
    }
}

proof fn lemma_first_index(c: Seq<char>, a: int, b: int, ch: char)
    requires
        a <= b,
    ensures
        a <= first_index(c, a, b, ch) <= b,
    decreases b - a,
{
    if a < b && c[a] != ch {
        lemma_first_index(c, a + 1, b, ch);
    }
}

/// The values `(first, last, step)` that the item `c[a..b]` runs over: `*`, `n` or
/// `x-y`, optionally followed by `/step`, where `n/step` runs from `n` to `hi`. `None`
/// for a malformed item or one that leaves `lo..=hi`.
pub open spec fn item_bounds(c: Seq<char>, a: int, b: int, lo: int, hi: int) -> Option<(int, int, int)> {
    let slash = first_index(c, a, b, '/');
    let step = if slash < b {
        number_at(c, slash + 1, b)
    } else {
        Some(1int)
    };
    let dash = first_index(c, a, slash, '-');
    let first = number_at(c, a, dash);
    let bounds = if slash - a == 1 && c[a] == '*' {
        Some((lo, hi))
    } else {
        match first {
            Some(x) => if dash < slash {
                match number_at(c, dash + 1, slash) {
                    Some(y) => Some((x, y)),
                    None => None,
                }
            } else if slash == b {
                Some((x, x))
            } else {
                Some((x, hi))
            },
            None => None,
        }
    };
    match (step, bounds) {
        (Some(st), Some((x, y))) => if st >= 1 && lo <= x && x <= y && y <= hi {
            Some((x, y, st))
        } else {
            None
        },
        _ => None,
    }
}

/// Whether the item `c[a..b]` allows the value `v`.
pub open spec fn item_allows(c: Seq<char>, a: int, b: int, lo: int, hi: int, v: int) -> bool {
    match item_bounds(c, a, b, lo, hi) {
        Some((x, y, st)) => x <= v <= y && (v - x) % st == 0,
        None => false,
    }
}

/// Whether every comma-separated item of the field `c[a..b]` is well formed.
pub open spec fn field_ok(c: Seq<char>, a: int, b: int, lo: int, hi: int) -> bool
    decreases b - a,
    via field_ok_decreases
{
    let comma = first_index(c, a, b, ',');
    if a > b {
        false
    } else {
        item_bounds(c, a, comma, lo, hi) is Some && (comma >= b || field_ok(c, comma + 1, b, lo, hi))
    }
}

#[via_fn]
proof fn field_ok_decreases(c: Seq<char>, a: int, b: int, lo: int, hi: int) {
    if a <= b {
        lemma_first_index(c, a, b, ',');
    }
}

/// Whether some item of the field `c[a..b]` allows the value `v`.
pub open spec fn field_allows(c: Seq<char>, a: int, b: int, lo: int, hi: int, v: int) -> bool
    decreases b - a,
    via field_allows_decreases
{
    let comma = first_index(c, a, b, ',');
    if a > b {
        false
    } else {
        item_allows(c, a, comma, lo, hi, v) || (comma < b && field_allows(c, comma + 1, b, lo, hi, v))
    }
}

#[via_fn]
proof fn field_allows_decreases(c: Seq<char>, a: int, b: int, lo: int, hi: int, v: int) {
    if a <= b {
        lemma_first_index(c, a, b, ',');
    }
}

/// The decimal number spelled by `c[start..end]`: one to four digits.
fn parse_number(c: &Vec<char>, start: usize, end: usize) -> (r: Option<u32>)
    requires
        start <= end <= c@.len(),
    ensures
        r matches Some(v) ==> v <= 9999,
        match number_at(c@, start as int, end as int) {
            Some(n) => r matches Some(v) && v as int == n,
            None => r is None,
        },
{
    if end == start || end - start > 4 {
        return None;
    }
    let mut v: u32 = 0;
    let mut i: usize = start;
    while i < end
        invariant
            start <= i <= end <= c@.len(),
            end - start <= 4,
            i - start <= 4,
            0 <= v < pow10((i - start) as nat),
            v == digits_value(c@, start as int, i as int),
            forall|k: int| start <= k < i ==> is_digit(#[trigger] c@[k]),
        decreases end - i,
    {
        let ch = c[i];
        if !('0' <= ch && ch <= '9') {
            return None;
        }
        let d = (ch as u32) - ('0' as u32);
        proof {
            lemma_pow10_step((i - start) as nat);
        }
        v = v * 10 + d;
        i = i + 1;
    }
    proof {
        reveal_with_fuel(pow10, 5);
    }
    Some(v)
}

spec fn pow10(n: nat) -> int
    decreases n,
{
    if n == 0 {
        1
    } else {
        10 * pow10((n - 1) as nat)
    }
}

proof fn lemma_pow10_step(n: nat)
    requires
        n <= 3,
    ensures
        pow10(n + 1) == 10 * pow10(n),
        pow10(n + 1) <= 10000,
{
    reveal_with_fuel(pow10, 5);
}

/// The first position of `ch` in `c[start..end]`, or `end`.
fn find_char(c: &Vec<char>, start: usize, end: usize, ch: char) -> (r: usize)
    requires
        start <= end <= c@.len(),
    ensures
        start <= r <= end,
        r == first_index(c@, start as int, end as int, ch),
{
    let mut i: usize = start;
    while i < end
        invariant
            start <= i <= end <= c@.len(),
            first_index(c@, start as int, end as int, ch) == first_index(c@, i as int, end as int, ch),
        decreases end - i,
    {
        if c[i] == ch {
            return i;
        }
        i = i + 1;
    }
    end
}

proof fn lemma_next_multiple(x: int, v: int, u: int, st: int)
    requires
        st >= 1,
        x <= v,
        (v - x) % st == 0,
        v < u < v + st,
    ensures
        (u - x) % st != 0,
{
    let q = (v - x) / st;
    assert(v - x == q * st) by {
        vstd::arithmetic::div_mod::lemma_fundamental_div_mod(v - x, st);
    }
    vstd::arithmetic::div_mod::lemma_fundamental_div_mod(u - x, st);
    let q2 = (u - x) / st;
    let r2 = (u - x) % st;
    assert(0 <= r2 < st) by {
        vstd::arithmetic::div_mod::lemma_mod_bound(u - x, st);
    }
    if r2 == 0 {
        assert(u - x == q2 * st);
        assert(q * st < q2 * st < (q + 1) * st) by (nonlinear_arith)
            requires
                v - x == q * st,
                u - x == q2 * st,
                v < u < v + st,
        ;
        assert(false) by (nonlinear_arith)
            requires
                q * st < q2 * st,
                q2 * st < (q + 1) * st,
                st >= 1,
        ;
    }
}

proof fn lemma_step_multiple(x: int, v: int, st: int)
    requires
        st >= 1,
        (v - x) % st == 0,
    ensures
        (v + st - x) % st == 0,
{
    vstd::arithmetic::div_mod::lemma_mod_add_multiples_vanish(v - x, st);
}

/// Marks in `table` the values that the item `c[start..end]` allows. Returns false,
/// leaving the table as it was, on a malformed item.
fn mark_item(c: &Vec<char>, start: usize, end: usize, lo: u32, hi: u32, table: &mut Vec<bool>) -> (r: bool)
    requires
        start <= end <= c@.len(),
        lo <= hi <= 59,
        old(table)@.len() == hi as int + 1,
    ensures
        final(table)@.len() == old(table)@.len(),
        r == item_bounds(c@, start as int, end as int, lo as int, hi as int) is Some,
        forall|u: int|
            0 <= u <= hi ==> #[trigger] final(table)@[u] == (old(table)@[u] || item_allows(
                c@,
                start as int,
                end as int,
                lo as int,
                hi as int,
                u,
            )),
{
    let slash = find_char(c, start, end, '/');
    let mut step: u32 = 1;
    if slash < end {
        match parse_number(c, slash + 1, end) {
            Some(n) => {
                step = n;
            },
            None => {
                return false;
            },
        }
    }
    let mut a: u32 = lo;
    let mut b: u32 = hi;
    let dash = find_char(c, start, slash, '-');
    if !(slash - start == 1 && c[start] == '*') {
        let first = parse_number(c, start, dash);
        match first {
            Some(x) => {
                a = x;
            },
            None => {
                return false;
            },
        }
        if dash < slash {
            match parse_number(c, dash + 1, slash) {
                Some(y) => {
                    b = y;
                },
                None => {
                    return false;
                },
            }
        } else if slash == end {
            b = a;
        }
    }
    if !(step >= 1 && lo <= a && a <= b && b <= hi) {
        return false;
    }
    assert(item_bounds(c@, start as int, end as int, lo as int, hi as int) == Some(
        (a as int, b as int, step as int),
    ));
    let ghost before = table@;
    let mut v: u32 = a;
    assert((v - a) % (step as int) == 0) by {
        vstd::arithmetic::div_mod::lemma_small_mod(0, step as nat);
    }
    loop
        invariant_except_break
            forall|u: int|
                0 <= u <= hi ==> #[trigger] table@[u] == (before[u] || (a <= u < v && (u - a) % (
                step as int) == 0)),
        invariant
            a <= v <= b,
            b <= hi <= 59,
            step >= 1,
            (v - a) % (step as int) == 0,
            table@.len() == hi as int + 1,
            before.len() == hi as int + 1,
        ensures
            forall|u: int|
                0 <= u <= hi ==> #[trigger] table@[u] == (before[u] || (a <= u <= b && (u - a) % (
                step as int) == 0)),
            table@.len() == hi as int + 1,
        decreases b + 1 - v,
    {
        table.set(v as usize, true);
        if step > b - v {
            assert forall|u: int| 0 <= u <= hi implies #[trigger] table@[u] == (before[u] || (a <= u
                <= b && (u - a) % (step as int) == 0)) by {
                if v < u <= b {
                    lemma_next_multiple(a as int, v as int, u, step as int);
                }
            }
            break;
        }
        proof {
            lemma_step_multiple(a as int, v as int, step as int);
            assert forall|u: int| 0 <= u <= hi implies #[trigger] table@[u] == (before[u] || (a <= u
                < v + step && (u - a) % (step as int) == 0)) by {
                if v < u < v + step {
                    lemma_next_multiple(a as int, v as int, u, step as int);
                }
            }
        }
        v = v + step;
    }
    true
}

/// The table of values allowed by the field `c[start..end]` (comma-separated items),
/// indexed by value from 0 to `hi`; `None` on a malformed field.
fn parse_field(c: &Vec<char>, start: usize, end: usize, lo: u32, hi: u32) -> (r: Option<Vec<bool>>)
    requires
        start <= end <= c@.len(),
        lo <= hi <= 59,
    ensures
        r is Some <==> field_ok(c@, start as int, end as int, lo as int, hi as int),
        r matches Some(t) ==> t@.len() == hi as int + 1 && forall|u: int|
            0 <= u <= hi ==> #[trigger] t@[u] == field_allows(
                c@,
                start as int,
                end as int,
                lo as int,
                hi as int,
                u,
            ),
{
    let mut table: Vec<bool> = Vec::new();
    let mut k: u32 = 0;
    while k <= hi
        invariant
            hi <= 59,
            table@.len() == k as int,
            k <= hi + 1,
            forall|u: int| 0 <= u < k ==> #[trigger] table@[u] == false,
        decreases hi + 1 - k,
    {
        table.push(false);
        k = k + 1;
    }
    let mut i: usize = start;
    loop
        invariant
            start <= i <= end <= c@.len(),
            lo <= hi <= 59,
            table@.len() == hi as int + 1,
            field_ok(c@, start as int, end as int, lo as int, hi as int) == field_ok(
                c@,
                i as int,
                end as int,
                lo as int,
                hi as int,
            ),
            forall|u: int|
                0 <= u <= hi ==> field_allows(c@, start as int, end as int, lo as int, hi as int, u)
                    == (#[trigger] table@[u] || field_allows(
                    c@,
                    i as int,
                    end as int,
                    lo as int,
                    hi as int,
                    u,
                )),
        decreases end - i,
    {
        let comma = find_char(c, i, end, ',');
        let ghost next_i: int = comma as int + 1;
        let ghost prev = table@;
        if !mark_item(c, i, comma, lo, hi, &mut table) {
            return None;
        }
        assert forall|u: int| 0 <= u <= hi implies field_allows(
            c@,
            start as int,
            end as int,
            lo as int,
            hi as int,
            u,
        ) == (#[trigger] table@[u] || (comma < end && field_allows(
            c@,
            next_i,
            end as int,
            lo as int,
            hi as int,
            u,
        ))) by {
            assert(field_allows(c@, start as int, end as int, lo as int, hi as int, u) == (prev[u]
                || field_allows(c@, i as int, end as int, lo as int, hi as int, u)));
            assert(table@[u] == (prev[u] || item_allows(
                c@,
                i as int,
                comma as int,
                lo as int,
                hi as int,
                u,
            )));
            assert(field_allows(c@, i as int, end as int, lo as int, hi as int, u) == (item_allows(
                c@,
                i as int,
                comma as int,
                lo as int,
                hi as int,
                u,
            ) || (comma < end && field_allows(c@, next_i, end as int, lo as int, hi as int, u))));
        }
        if comma == end {
            return Some(table);
        }
        i = comma + 1;
        assert forall|u: int| 0 <= u <= hi implies field_allows(
            c@,
            start as int,
            end as int,
            lo as int,
            hi as int,
            u,
        ) == (#[trigger] table@[u] || field_allows(c@, i as int, end as int, lo as int, hi as int, u))
            by {
            assert(comma < end);
            assert(i as int == next_i);
            assert(field_allows(c@, start as int, end as int, lo as int, hi as int, u) == (table@[u]
                || (comma < end && field_allows(c@, next_i, end as int, lo as int, hi as int, u))));
        }
    }
}

/// Whether `ch` separates the fields of a cron expression.
pub open spec fn is_blank_char(ch: char) -> bool {
    ch == ' ' || ch == '\t'
}

/// The end of the run of non-blank characters of `c` that starts at `i`.
pub open spec fn token_end(c: Seq<char>, i: int) -> int
    decreases c.len() - i,
{
    if i < 0 || i >= c.len() || is_blank_char(c[i]) {
        i
    } else {
        token_end(c, i + 1)
    }
}

proof fn lemma_token_end(c: Seq<char>, i: int)
    requires
        0 <= i <= c.len(),
    ensures
        i <= token_end(c, i) <= c.len(),
    decreases c.len() - i,
{
    if i < c.len() && !is_blank_char(c[i]) {
        lemma_token_end(c, i + 1);
    }
}

/// The spans `(start, end)` of the blank-separated fields of `c` from position `i` on.
pub open spec fn token_spans(c: Seq<char>, i: int) -> Seq<(int, int)>
    decreases c.len() - i,
    via token_spans_decreases
{
    if i < 0 || i >= c.len() {
        seq![]
    } else if is_blank_char(c[i]) {
        token_spans(c, i + 1)
    } else {
        seq![(i, token_end(c, i + 1))] + token_spans(c, token_end(c, i + 1))
    }
}

#[via_fn]
proof fn token_spans_decreases(c: Seq<char>, i: int) {
    if 0 <= i < c.len() {
        lemma_token_end(c, i + 1);
    }
}

/// Whether `ch` separates cron fields.
fn is_blank(ch: char) -> (r: bool)
    ensures
        r == is_blank_char(ch),
{
    ch == ' ' || ch == '\t'
}

/// Whether the spans `sp` of `c` are five well-formed cron fields.
pub open spec fn cron_fields_ok(c: Seq<char>, sp: Seq<(int, int)>) -> bool {
    &&& sp.len() == 5
    &&& field_ok(c, sp[0].0, sp[0].1, 0, 59)
    &&& field_ok(c, sp[1].0, sp[1].1, 0, 23)
    &&& field_ok(c, sp[2].0, sp[2].1, 1, 31)
    &&& field_ok(c, sp[3].0, sp[3].1, 1, 12)
    &&& field_ok(c, sp[4].0, sp[4].1, 0, 7)
}

impl CronSchedule {
    /// Parses a five-field cron expression (`minute hour day-of-month month day-of-week`,
    /// separated by blanks). Each field is a comma-separated list of `*`, `n` or `x-y`,
    /// each optionally followed by `/step`; day of week runs from 0 (Sunday) to 7 (Sunday
    /// again). A day field is restricted unless it starts with `*`.
    pub fn from_string(expr: &str) -> (r: Result<CronSchedule, ScheduleError>)
        ensures
            ({
                let c = expr@;
                let sp = token_spans(c, 0);
                &&& r is Ok <==> cron_fields_ok(c, sp)
                &&& r matches Err(e) ==> e == ScheduleError::InvalidExpression
                &&& r matches Ok(cs) ==> {
                    &&& cs.wf()
                    &&& forall|u: int| 0 <= u < 60 ==> #[trigger] cs.minutes@[u] == field_allows(c, sp[0].0, sp[0].1, 0, 59, u)
                    &&& forall|u: int| 0 <= u < 24 ==> #[trigger] cs.hours@[u] == field_allows(c, sp[1].0, sp[1].1, 0, 23, u)
                    &&& forall|u: int| 0 <= u < 32 ==> #[trigger] cs.days_of_month@[u] == field_allows(c, sp[2].0, sp[2].1, 1, 31, u)
                    &&& forall|u: int| 0 <= u < 13 ==> #[trigger] cs.months@[u] == field_allows(c, sp[3].0, sp[3].1, 1, 12, u)
                    &&& forall|u: int| 0 <= u < 7 ==> #[trigger] cs.days_of_week@[u] == (field_allows(c, sp[4].0, sp[4].1, 0, 7, u) || (u == 0 && field_allows(c, sp[4].0, sp[4].1, 0, 7, 7)))
                    &&& cs.day_of_month_restricted == (c[sp[2].0] != '*')
                    &&& cs.day_of_week_restricted == (c[sp[4].0] != '*')
                }
            }),
    {
        let c = chars_of(expr);
        let n = c.len();
        let ghost all = token_spans(c@, 0);
        let mut spans: Vec<(usize, usize)> = Vec::new();
        let mut i: usize = 0;
        while i < n
            invariant
                n == c@.len(),
                c@ == expr@,
                all == token_spans(c@, 0),
                0 <= i <= n,
                spans@.len() + token_spans(c@, i as int).len() == all.len(),
                token_spans(c@, i as int) == all.subrange(spans@.len() as int, all.len() as int),
                forall|k: int| 0 <= k < spans@.len() ==> (#[trigger] spans@[k].0 as int, spans@[k].1 as int) == all[k],
                forall|k: int| 0 <= k < spans@.len() ==> #[trigger] spans@[k].0 < spans@[k].1 <= n,
            decreases n - i,
        {
            if is_blank(c[i]) {
                i = i + 1;
            } else {
                let s = i;
                i = i + 1;
                while i < n && !is_blank(c[i])
                    invariant
                        s < i <= n,
                        n == c@.len(),
                        forall|k: int| 0 <= k < spans@.len() ==> (#[trigger] spans@[k].0 as int, spans@[k].1 as int) == all[k],
                        forall|k: int| 0 <= k < spans@.len() ==> #[trigger] spans@[k].0 < spans@[k].1 <= n,
                        token_end(c@, s + 1) == token_end(c@, i as int),
                    decreases n - i,
                {
                    i = i + 1;
                }
                proof {
                    let rest = token_spans(c@, i as int);
                    assert(token_spans(c@, s as int) == seq![(s as int, i as int)] + rest);
                    assert(all.subrange(spans@.len() as int, all.len() as int)[0] == (s as int, i as int));
                    assert(all.subrange(spans@.len() as int + 1, all.len() as int) =~= all.subrange(spans@.len() as int, all.len() as int).drop_first());
                    assert((seq![(s as int, i as int)] + rest).drop_first() =~= rest);
                }
                spans.push((s, i));
            }
        }
        proof {
            assert(token_spans(c@, n as int).len() == 0);
        }
        if spans.len() != 5 {
            return Err(ScheduleError::InvalidExpression);
        }
        let minutes = parse_field(&c, spans[0].0, spans[0].1, 0, 59);
        let hours = parse_field(&c, spans[1].0, spans[1].1, 0, 23);
        let days_of_month = parse_field(&c, spans[2].0, spans[2].1, 1, 31);
        let months = parse_field(&c, spans[3].0, spans[3].1, 1, 12);
        let week = parse_field(&c, spans[4].0, spans[4].1, 0, 7);
        match (minutes, hours, days_of_month, months, week) {
            (Some(minutes), Some(hours), Some(days_of_month), Some(months), Some(week)) => {
                let mut days_of_week: Vec<bool> = Vec::new();
                let mut d: usize = 0;
                while d < 7
                    invariant
                        week@.len() == 8,
                        days_of_week@.len() == d,
                        d <= 7,
                        forall|u: int| 0 <= u < d ==> #[trigger] days_of_week@[u] == (week@[u] || (u == 0 && week@[7])),
                    decreases 7 - d,
                {
                    days_of_week.push(week[d] || (d == 0 && week[7]));
                    d = d + 1;
                }
                Ok(
                    CronSchedule {
                        minutes,
                        hours,
                        days_of_month,
                        months,
                        days_of_week,
                        day_of_month_restricted: c[spans[2].0] != '*',
                        day_of_week_restricted: c[spans[4].0] != '*',
                    },
                )
            },
            _ => Err(ScheduleError::InvalidExpression),
        }
    }
}

} // verus!

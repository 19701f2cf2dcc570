//! Task routing: the first rule whose glob pattern matches a task name gives its queue.

use crate::cron::chars_of;
use vstd::prelude::*;

verus! {

/// Whether `p[i..]` matches `s[j..]`, where `*` in a pattern matches any run of characters
/// and every other character matches itself.
pub open spec fn glob_from(p: Seq<char>, s: Seq<char>, i: int, j: int) -> bool
    decreases (p.len() - i) + (s.len() - j),
{
    if i < 0 || j < 0 || i > p.len() || j > s.len() {
        false
    } else if i == p.len() {
        j == s.len()
    } else if p[i] == '*' {
        glob_from(p, s, i + 1, j) || (j < s.len() && glob_from(p, s, i, j + 1))
    } else {
        j < s.len() && p[i] == s[j] && glob_from(p, s, i + 1, j + 1)
    }
}

/// Whether the glob pattern `p` matches the whole of `s`.
pub open spec fn glob_matches(p: Seq<char>, s: Seq<char>) -> bool {
    glob_from(p, s, 0, 0)
}

/// The queue of the first rule `(pattern, queue)` whose pattern matches `name`.
pub open spec fn route_spec(name: Seq<char>, rules: Seq<(String, String)>) -> Option<Seq<char>>
    decreases rules.len(),
{
    if rules.len() == 0 {
        None
    } else if glob_matches(rules[0].0@, name) {
        Some(rules[0].1@)
    } else {
        route_spec(name, rules.drop_first())
    }
}

/// Whether the glob pattern `pattern` matches the whole of `name`.
pub fn glob_match(pattern: &str, name: &str) -> (r: bool)
    ensures
        r == glob_matches(pattern@, name@),
{
    let p = chars_of(pattern);
    let s = chars_of(name);
    let pn = p.len();
    let sn = s.len();
    // next[k] holds whether p[i..] matches s[k..] for k < sn; next_end covers k == sn.
    let mut next: Vec<bool> = Vec::new();
    let mut j: usize = 0;
    while j < sn
        invariant
            j <= sn,
            next@.len() == j,
            forall|k: int| 0 <= k < j ==> next@[k] == glob_from(p@, s@, pn as int, k),
            pn == p@.len(),
            sn == s@.len(),
        decreases sn - j,
    {
        next.push(false);
        j = j + 1;
    }
    let mut next_end = true;
    let mut i: usize = pn;
    while i > 0
        invariant
            i <= pn,
            pn == p@.len(),
            sn == s@.len(),
            next@.len() == sn,
            forall|k: int| 0 <= k < sn ==> next@[k] == glob_from(p@, s@, i as int, k),
            next_end == glob_from(p@, s@, i as int, sn as int),
        decreases i,
    {
        let c = p[i - 1];
        let mut cur: Vec<bool> = Vec::new();
        let mut k: usize = 0;
        while k < sn
            invariant
                k <= sn,
                cur@.len() == k,
            decreases sn - k,
        {
            cur.push(false);
            k = k + 1;
        }
        let cur_end = c == '*' && next_end;
        let mut j: usize = sn;
        while j > 0
            invariant
                0 < i <= pn,
                j <= sn,
                pn == p@.len(),
                sn == s@.len(),
                c == p@[i - 1],
                next@.len() == sn,
                cur@.len() == sn,
                forall|k: int| 0 <= k < sn ==> next@[k] == glob_from(p@, s@, i as int, k),
                next_end == glob_from(p@, s@, i as int, sn as int),
                cur_end == glob_from(p@, s@, i - 1, sn as int),
                forall|k: int| j <= k < sn ==> cur@[k] == glob_from(p@, s@, i - 1, k),
            decreases j,
        {
            let jj = j - 1;
            let later = if jj + 1 < sn {
                cur[jj + 1]
            } else {
                cur_end
            };
            let skip = if jj + 1 < sn {
                next[jj + 1]
            } else {
                next_end
            };
            let v = if c == '*' {
                next[jj] || later
            } else {
                c == s[jj] && skip
            };
            cur.set(jj, v);
            j = jj;
        }
        next = cur;
        next_end = cur_end;
        i = i - 1;
    }
    if sn == 0 {
        next_end
    } else {
        next[0]
    }
}

/// The queue of the first routing rule whose pattern matches `task_name`, if any.
pub fn route(task_name: &str, rules: &Vec<(String, String)>) -> (r: Option<String>)
    ensures
        match r {
            Some(q) => route_spec(task_name@, rules@) == Some(q@),
            None => route_spec(task_name@, rules@) is None,
        },
{
    let n = rules.len();
    let mut k: usize = 0;
    assert(rules@.subrange(0, n as int) =~= rules@);
    while k < n
        invariant
            n == rules@.len(),
            k <= n,
            route_spec(task_name@, rules@) == route_spec(task_name@, rules@.subrange(k as int, n as int)),
        decreases n - k,
    {
        assert(rules@.subrange(k as int, n as int).drop_first() =~= rules@.subrange(k + 1, n as int));
        let rule = &rules[k];
        if glob_match(rule.0.as_str(), task_name) {
            return Some(rule.1.clone());
        }
        k = k + 1;
    }
    None
}

} // verus!

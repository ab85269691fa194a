use vstd::prelude::*;

use crate::msg::DebtConfig;

verus! {

/// How many `/` the text holds.
pub open spec fn slash_count(s: Seq<char>) -> nat
    decreases s.len(),
{
    if s.len() == 0 {
        0
    } else {
        (if s[0] == '/' { 1nat } else { 0nat }) + slash_count(s.drop_first())
    }
}

/// The number of `/`-separated segments: one more than the separators.
pub open spec fn segment_count(s: Seq<char>) -> nat {
    slash_count(s) + 1
}

/// What follows the `k`-th `/` (the whole text for `k == 0`).
pub open spec fn after_slashes(s: Seq<char>, k: nat) -> Seq<char>
    decreases s.len(),
{
    if k == 0 || s.len() == 0 {
        s
    } else if s[0] == '/' {
        after_slashes(s.drop_first(), (k - 1) as nat)
    } else {
        after_slashes(s.drop_first(), k)
    }
}

/// The first rule whose source denom is `denom`, if any.
pub open spec fn first_rule(rules: Seq<DebtConfig>, denom: Seq<char>) -> Option<DebtConfig>
    decreases rules.len(),
{
    if rules.len() == 0 {
        None
    } else if rules[0].denom@ == denom {
        Some(rules[0])
    } else {
        first_rule(rules.drop_first(), denom)
    }
}

/// The market that funds in `denom` go to: the third segment of the first
/// matching rule's debt denom, where that has exactly three segments.
pub open spec fn route_spec(rules: Seq<DebtConfig>, denom: Seq<char>) -> Option<Seq<char>> {
    match first_rule(rules, denom) {
        None => None,
        Some(rule) => if segment_count(rule.debt_denom@) == 3 {
            Some(after_slashes(rule.debt_denom@, 2))
        } else {
            None
        },
    }
}

/// The third `/`-segment of `s`, where `s` has exactly three segments.
pub fn third_segment(s: &String) -> (r: Option<String>)
    ensures
        r is Some <==> segment_count(s@) == 3,
        r matches Some(m) ==> m@ == after_slashes(s@, 2),
{
    let t = s.as_str();
    let n = t.unicode_len();
    let mut i: usize = 0;
    let mut seen: usize = 0;
    let mut start: usize = 0;
    assert(s@.subrange(0, n as int) =~= s@);
    while i < n
        invariant
            n == s@.len(),
            t@ == s@,
            i <= n,
            seen <= i,
            start <= n,
            slash_count(s@) == seen + slash_count(s@.subrange(i as int, n as int)),
            seen >= 2 ==> after_slashes(s@, 2) == s@.subrange(start as int, n as int),
            seen < 2 ==> after_slashes(s@, 2) == after_slashes(
                s@.subrange(i as int, n as int),
                (2 - seen) as nat,
            ),
        decreases n - i,
    {
        let c = t.get_char(i);
        let ghost rest = s@.subrange(i as int, n as int);
        assert(rest.drop_first() =~= s@.subrange(i + 1, n as int));
        if c == '/' {
            seen = seen + 1;
            if seen == 2 {
                start = i + 1;
                assert(after_slashes(rest, 1) == after_slashes(rest.drop_first(), 0));
            }
        }
        i = i + 1;
    }
    assert(s@.subrange(n as int, n as int).len() == 0);
    if seen == 2 {
        Some(t.substring_char(start, n).to_owned())
    } else {
        None
    }
}

/// The market that funds in `denom` are routed to, by the rules in order.
pub fn route(rules: &Vec<DebtConfig>, denom: &String) -> (r: Option<String>)
    ensures
        r is Some <==> route_spec(rules@, denom@) is Some,
        r matches Some(m) ==> route_spec(rules@, denom@) == Some(m@),
{
    let mut i: usize = 0;
    assert(rules@.subrange(0, rules@.len() as int) =~= rules@);
    while i < rules.len()
        invariant
            i <= rules@.len(),
            first_rule(rules@, denom@) == first_rule(
                rules@.subrange(i as int, rules@.len() as int),
                denom@,
            ),
        decreases rules.len() - i,
    {
        let ghost rest = rules@.subrange(i as int, rules@.len() as int);
        assert(rest.drop_first() =~= rules@.subrange(i + 1, rules@.len() as int));
        if rules[i].denom == *denom {
            return third_segment(&rules[i].debt_denom);
        }
        i = i + 1;
    }
    None
}

} // verus!

//! Decimal integers written as text: the forms accepted for channel
//! identifiers and for artifact file names.
use vstd::prelude::*;

verus! {

pub open spec fn is_digit(c: char) -> bool {
    '0' <= c && c <= '9'
}

pub open spec fn digit_value(c: char) -> int {
    c as int - '0' as int
}

/// A non-empty run of ASCII digits.
pub open spec fn is_digit_run(s: Seq<char>) -> bool {
    s.len() > 0 && forall|i: int| 0 <= i < s.len() ==> is_digit(#[trigger] s[i])
}

/// The value of a run of digits, most significant first.
pub open spec fn digits_value(s: Seq<char>) -> int
    decreases s.len(),
{
    if s.len() == 0 {
        0
    } else {
        digits_value(s.drop_last()) * 10 + digit_value(s.last())
    }
}

/// The integer that `s` writes: an optional `+` or `-`, then digits.
pub open spec fn signed_value(s: Seq<char>) -> Option<int> {
    if s.len() > 0 && s[0] == '-' && is_digit_run(s.drop_first()) {
        Some(-digits_value(s.drop_first()))
    } else if s.len() > 0 && s[0] == '+' && is_digit_run(s.drop_first()) {
        Some(digits_value(s.drop_first()))
    } else if is_digit_run(s) {
        Some(digits_value(s))
    } else {
        None
    }
}

pub open spec fn fits_i64(v: int) -> bool {
    i64::MIN <= v && v <= i64::MAX
}

/// What `s` denotes as an `i64`, or `None` when it is malformed or out of range.
pub open spec fn i64_of(s: Seq<char>) -> Option<i64> {
    match signed_value(s) {
        Some(v) => if fits_i64(v) {
            Some(v as i64)
        } else {
            None
        },
        None => None,
    }
}

proof fn lemma_digits_nonneg(s: Seq<char>)
    requires
        forall|i: int| 0 <= i < s.len() ==> is_digit(#[trigger] s[i]),
    ensures
        digits_value(s) >= 0,
    decreases s.len(),
{
    if s.len() > 0 {
        lemma_digits_nonneg(s.drop_last());
    }
}

/// A longer run of digits is worth at least as much as its prefix.
proof fn lemma_digits_prefix_le(s: Seq<char>, k: int)
    requires
        0 <= k <= s.len(),
        forall|i: int| 0 <= i < s.len() ==> is_digit(#[trigger] s[i]),
    ensures
        digits_value(s.subrange(0, k)) <= digits_value(s),
    decreases s.len(),
{
    if k < s.len() {
        assert(s.drop_last() =~= s.subrange(0, s.len() - 1));
        lemma_digits_prefix_le(s.drop_last(), k);
        assert(s.drop_last().subrange(0, k) =~= s.subrange(0, k));
        lemma_digits_nonneg(s.drop_last());
    } else {
        assert(s.subrange(0, k) =~= s);
    }
}

/// Reads `s[start..]` as a run of digits; `None` when it is empty, holds
/// another character, or is worth more than `limit`.
fn digits_up_to(s: &str, start: usize, limit: i128) -> (r: Option<i128>)
    requires
        start <= s@.len(),
        0 <= limit <= i64::MAX as int + 1,
    ensures
        r matches Some(v) ==> is_digit_run(s@.skip(start as int)) && v == digits_value(
            s@.skip(start as int),
        ) && 0 <= v <= limit,
        r is None ==> !is_digit_run(s@.skip(start as int)) || digits_value(s@.skip(start as int))
            > limit,
{
    let n = s.unicode_len();
    if start >= n {
        return None;
    }
    let ghost t = s@.skip(start as int);
    let mut acc: i128 = 0;
    let mut i: usize = start;
    while i < n
        invariant
            start <= i <= n,
            n == s@.len(),
            t == s@.skip(start as int),
            0 <= limit <= i64::MAX as int + 1,
            forall|j: int| 0 <= j < i - start ==> is_digit(#[trigger] t[j]),
            acc == digits_value(t.subrange(0, i - start)),
            0 <= acc <= limit,
        decreases n - i,
    {
        let c = s.get_char(i);
        if !('0' <= c && c <= '9') {
            assert(!is_digit(t[i - start]));
            return None;
        }
        let d = (c as u32 - '0' as u32) as i128;
        proof {
            let p = t.subrange(0, i - start + 1);
            assert(p.drop_last() =~= t.subrange(0, i - start));
        }
        acc = acc * 10 + d;
        i = i + 1;
        if acc > limit {
            proof {
                if is_digit_run(t) {
                    lemma_digits_prefix_le(t, i - start);
                }
            }
            return None;
        }
    }
    assert(t.subrange(0, i - start) =~= t);
    Some(acc)
}

/// Reads a whole string as a decimal `i64`, in the forms that Rust's integer
/// parsing accepts: an optional sign, then at least one digit.
pub fn parse_i64(s: &str) -> (r: Option<i64>)
    ensures
        r == i64_of(s@),
{
    let n = s.unicode_len();
    if n > 0 {
        let c = s.get_char(0);
        if c == '-' {
            assert(s@.skip(1) =~= s@.drop_first());
            return match digits_up_to(s, 1, i64::MAX as i128 + 1) {
                Some(v) => Some((-v) as i64),
                None => None,
            };
        }
        if c == '+' {
            assert(s@.skip(1) =~= s@.drop_first());
            return match digits_up_to(s, 1, i64::MAX as i128) {
                Some(v) => Some(v as i64),
                None => None,
            };
        }
    }
    assert(s@.skip(0) =~= s@);
    match digits_up_to(s, 0, i64::MAX as i128) {
        Some(v) => Some(v as i64),
        None => None,
    }
}

} // verus!

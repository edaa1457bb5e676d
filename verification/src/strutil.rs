//! Character-level string helpers.
//!
//! The engine reasons about strings as sequences of characters. These
//! helpers give the exact character-level facts the heuristics need:
//! equality, containment, counting, and reading a numeric literal out of a
//! string. A numeric string is an optional sign, one or more decimal digits,
//! and an optional fraction part, which is truncated away; a magnitude that
//! does not fit a 64-bit signed integer is treated as not numeric, and so
//! is exponent notation — the obfuscated tables spell their numbers out.

use vstd::prelude::*;
use vstd::string::StrSliceExecFns;

verus! {

/// Whether a character is an ASCII decimal digit.
pub open spec fn spec_is_digit(c: char) -> bool {
    48 <= c as u32 <= 57
}

/// Digit value of an ASCII decimal digit.
pub open spec fn spec_digit_val(c: char) -> int {
    c as u32 - 48
}

/// Value of a digit string, most significant first.
pub open spec fn spec_digits_val(s: Seq<char>) -> int
    decreases s.len(),
{
    if s.len() == 0 {
        0
    } else {
        spec_digits_val(s.drop_last()) * 10 + spec_digit_val(s.last())
    }
}

/// Whether every character of the sequence is an ASCII decimal digit.
pub open spec fn spec_all_digits(s: Seq<char>) -> bool {
    forall|i: int| 0 <= i < s.len() ==> spec_is_digit(#[trigger] s[i])
}

/// Position of the first '.' in the sequence, or its length if none.
pub open spec fn spec_dot_pos(s: Seq<char>) -> int
    decreases s.len(),
{
    if s.len() == 0 {
        0
    } else if s[0] == '.' {
        0
    } else {
        1 + spec_dot_pos(s.skip(1))
    }
}

/// The number a string resolves to: an optional sign, at least one digit,
/// an optional '.' and digit-only fraction (truncated away), with the
/// magnitude within the 64-bit signed range. Anything else is not numeric.
pub open spec fn spec_parse_num(s: Seq<char>) -> Option<i64> {
    let body = if s.len() > 0 && (s[0] == '-' || s[0] == '+') {
        s.skip(1)
    } else {
        s
    };
    let neg = s.len() > 0 && s[0] == '-';
    let dot = spec_dot_pos(body);
    let ipart = body.subrange(0, dot);
    let fpart = if dot < body.len() {
        body.subrange(dot + 1, body.len() as int)
    } else {
        Seq::empty()
    };
    if ipart.len() >= 1 && spec_all_digits(ipart) && spec_all_digits(fpart) && spec_digits_val(
        ipart,
    ) <= i64::MAX {
        if neg {
            Some((-spec_digits_val(ipart)) as i64)
        } else {
            Some(spec_digits_val(ipart) as i64)
        }
    } else {
        None
    }
}

/// Whether `pat` occurs as a contiguous run inside `s`.
pub open spec fn spec_contains_substr(s: Seq<char>, pat: Seq<char>) -> bool {
    exists|i: int|
        0 <= i && i + pat.len() <= s.len() && #[trigger] s.subrange(i, i + pat.len() as int)
            == pat
}

/// Number of occurrences of `c` in `s`.
pub open spec fn spec_count_char(s: Seq<char>, c: char) -> int
    decreases s.len(),
{
    if s.len() == 0 {
        0
    } else {
        spec_count_char(s.drop_last(), c) + if s.last() == c {
            1int
        } else {
            0int
        }
    }
}

/// Character-for-character string equality.
pub fn str_eq(a: &str, b: &str) -> (r: bool)
    ensures
        r == (a@ == b@),
{
    let an = a.unicode_len();
    let bn = b.unicode_len();
    if an != bn {
        proof {
            assert(a@ != b@);
        }
        return false;
    }
    let mut i: usize = 0;
    while i < an
        invariant
            i <= an,
            an == a@.len(),
            an == b@.len(),
            forall|j: int| 0 <= j < i ==> a@[j] == b@[j],
        decreases an - i,
    {
        if a.get_char(i) != b.get_char(i) {
            return false;
        }
        i = i + 1;
    }
    proof {
        assert(a@ =~= b@);
    }
    true
}

/// Whether `c` occurs in `s`.
pub fn contains_char(s: &str, c: char) -> (r: bool)
    ensures
        r == s@.contains(c),
{
    let n = s.unicode_len();
    let mut i: usize = 0;
    while i < n
        invariant
            i <= n,
            n == s@.len(),
            forall|j: int| 0 <= j < i ==> s@[j] != c,
        decreases n - i,
    {
        if s.get_char(i) == c {
            proof {
                assert(s@[i as int] == c);
            }
            return true;
        }
        i = i + 1;
    }
    proof {
        assert(!s@.contains(c));
    }
    false
}

/// Whether `pat` occurs as a contiguous run inside `s`.
pub fn contains_substr(s: &str, pat: &str) -> (r: bool)
    ensures
        r == spec_contains_substr(s@, pat@),
{
    let n = s.unicode_len();
    let m = pat.unicode_len();
    if m > n {
        proof {
            assert(!spec_contains_substr(s@, pat@));
        }
        return false;
    }
    if m == 0 {
        proof {
            assert(0 + pat@.len() <= s@.len());
            assert(s@.subrange(0, 0 + pat@.len() as int) =~= pat@);
        }
        return true;
    }
    let mut i: usize = 0;
    while i <= n - m
        invariant
            1 <= m <= n,
            n == s@.len(),
            m == pat@.len(),
            i <= n - m + 1,
            forall|k: int| 0 <= k < i ==> #[trigger] s@.subrange(k, k + pat@.len() as int) != pat@,
        decreases n - m + 1 - i,
    {
        let mut j: usize = 0;
        let mut matched = true;
        while j < m
            invariant
                i + m <= n,
                n == s@.len(),
                m == pat@.len(),
                j <= m,
                matched ==> forall|t: int| 0 <= t < j ==> s@[i + t] == pat@[t],
                !matched ==> s@.subrange(i as int, i + pat@.len() as int) != pat@,
            decreases m - j,
        {
            if s.get_char(i + j) != pat.get_char(j) {
                proof {
                    assert(s@.subrange(i as int, i + pat@.len() as int)[j as int] == s@[i + j]);
                }
                matched = false;
                j = m;
            } else {
                j = j + 1;
            }
        }
        if matched {
            proof {
                assert(s@.subrange(i as int, i + pat@.len() as int) =~= pat@);
            }
            return true;
        }
        i = i + 1;
    }
    proof {
        if spec_contains_substr(s@, pat@) {
            let k = choose|k: int|
                0 <= k && k + pat@.len() <= s@.len() && #[trigger] s@.subrange(
                    k,
                    k + pat@.len() as int,
                ) == pat@;
            assert(s@.subrange(k, k + pat@.len() as int) != pat@);
        }
    }
    false
}

/// Number of occurrences of `c` in `s`.
pub fn count_char(s: &str, c: char) -> (r: usize)
    ensures
        r == spec_count_char(s@, c),
{
    let n = s.unicode_len();
    let mut i: usize = 0;
    let mut count: usize = 0;
    proof {
        assert(s@.subrange(0, 0) =~= Seq::<char>::empty());
    }
    while i < n
        invariant
            i <= n,
            n == s@.len(),
            count <= i,
            count == spec_count_char(s@.subrange(0, i as int), c),
        decreases n - i,
    {
        proof {
            assert(s@.subrange(0, i + 1).drop_last() =~= s@.subrange(0, i as int));
            assert(s@.subrange(0, i + 1).last() == s@[i as int]);
        }
        if s.get_char(i) == c {
            count = count + 1;
        }
        i = i + 1;
    }
    proof {
        assert(s@.subrange(0, n as int) =~= s@);
    }
    count
}

/// Every nonnegative digit string has a nonnegative value.
proof fn lemma_digits_val_nonneg(s: Seq<char>)
    requires
        spec_all_digits(s),
    ensures
        spec_digits_val(s) >= 0,
    decreases s.len(),
{
    if s.len() > 0 {
        assert(spec_all_digits(s.drop_last()));
        lemma_digits_val_nonneg(s.drop_last());
    }
}

/// Extending a digit string never lowers its value.
proof fn lemma_digits_val_prefix(s: Seq<char>, i: int)
    requires
        spec_all_digits(s),
        0 <= i <= s.len(),
    ensures
        spec_digits_val(s.subrange(0, i)) <= spec_digits_val(s),
    decreases s.len() - i,
{
    if i == s.len() {
        assert(s.subrange(0, i) =~= s);
    } else {
        lemma_digits_val_prefix(s, i + 1);
        assert(s.subrange(0, i + 1).drop_last() =~= s.subrange(0, i));
        assert(spec_all_digits(s.subrange(0, i)));
        lemma_digits_val_nonneg(s.subrange(0, i));
        assert(spec_digits_val(s.subrange(0, i + 1)) == spec_digits_val(s.subrange(0, i)) * 10
            + spec_digit_val(s.subrange(0, i + 1).last()));
    }
}

/// Whether every character of `s` between `from` and `to` is a digit.
fn all_digits_range(s: &str, from: usize, to: usize) -> (r: bool)
    requires
        from <= to <= s@.len(),
    ensures
        r == spec_all_digits(s@.subrange(from as int, to as int)),
{
    let ghost sub = s@.subrange(from as int, to as int);
    let mut i: usize = from;
    while i < to
        invariant
            from <= i <= to <= s@.len(),
            sub == s@.subrange(from as int, to as int),
            forall|j: int| 0 <= j < i - from ==> spec_is_digit(#[trigger] sub[j]),
        decreases to - i,
    {
        let cv = s.get_char(i) as u32;
        if cv < 48 || cv > 57 {
            proof {
                assert(!spec_is_digit(sub[i - from]));
            }
            return false;
        }
        i = i + 1;
    }
    true
}

/// Reads the value of the digit run between `from` and `to`, refusing a
/// non-digit or a value above `i64::MAX`.
fn digits_val_range(s: &str, from: usize, to: usize) -> (r: Option<u64>)
    requires
        from <= to <= s@.len(),
    ensures
        match r {
            Some(v) => spec_all_digits(s@.subrange(from as int, to as int)) && v
                == spec_digits_val(s@.subrange(from as int, to as int)) && v <= i64::MAX,
            None => !(spec_all_digits(s@.subrange(from as int, to as int)) && spec_digits_val(
                s@.subrange(from as int, to as int),
            ) <= i64::MAX),
        },
{
    let ghost sub = s@.subrange(from as int, to as int);
    let mut acc: u64 = 0;
    let mut i: usize = from;
    proof {
        assert(sub.subrange(0, 0) =~= Seq::<char>::empty());
    }
    while i < to
        invariant
            from <= i <= to <= s@.len(),
            sub == s@.subrange(from as int, to as int),
            spec_all_digits(sub.subrange(0, i - from)),
            acc <= i64::MAX,
            acc == spec_digits_val(sub.subrange(0, i - from)),
        decreases to - i,
    {
        let cv = s.get_char(i) as u32;
        proof {
            assert(sub.subrange(0, i - from + 1).drop_last() =~= sub.subrange(0, i - from));
            assert(sub.subrange(0, i - from + 1).last() == sub[i - from]);
        }
        if cv < 48 || cv > 57 {
            proof {
                assert(!spec_is_digit(sub[i - from]));
            }
            return None;
        }
        let d = (cv - 48) as u64;
        if acc > 922337203685477580 || (acc == 922337203685477580 && d > 7) {
            proof {
                let pre = sub.subrange(0, i - from);
                let cur = sub.subrange(0, i - from + 1);
                assert forall|j: int| 0 <= j < cur.len() implies spec_is_digit(
                    #[trigger] cur[j],
                ) by {
                    if j < i - from {
                        assert(cur[j] == pre[j]);
                    } else {
                        assert(cur[j] == sub[i - from]);
                    }
                }
                assert(spec_digits_val(cur) == acc * 10 + d);
                lemma_digits_all_prefix_bound(sub, i - from + 1);
            }
            return None;
        }
        acc = acc * 10 + d;
        i = i + 1;
    }
    proof {
        assert(sub.subrange(0, to - from) =~= sub);
    }
    Some(acc)
}

/// Position of the first '.' at or after `from`, or the length if none;
/// the result is `from + spec_dot_pos` of the tail from `from`.
fn find_dot(s: &str, from: usize) -> (dot: usize)
    requires
        from <= s@.len(),
    ensures
        from <= dot <= s@.len(),
        dot - from == spec_dot_pos(s@.subrange(from as int, s@.len() as int)),
        dot < s@.len() ==> s@[dot as int] == '.',
{
    let n = s.unicode_len();
    let mut dot: usize = n;
    let mut i: usize = from;
    while i < n
        invariant
            from <= i <= n,
            n == s@.len(),
            dot == n || (from <= dot < i && s@[dot as int] == '.'),
            dot == n ==> forall|j: int| from <= j < i ==> s@[j] != '.',
            dot < n ==> forall|j: int| from <= j < dot ==> s@[j] != '.',
        decreases n - i,
    {
        if dot == n && s.get_char(i) == '.' {
            dot = i;
        }
        i = i + 1;
    }
    proof {
        lemma_dot_pos(s@.subrange(from as int, n as int), dot - from);
    }
    dot
}

/// Reads the numeric value of a string, per `spec_parse_num`.
pub fn parse_num_str(s: &str) -> (r: Option<i64>)
    ensures
        r == spec_parse_num(s@),
{
    let n = s.unicode_len();
    let mut start: usize = 0;
    let mut neg = false;
    if n > 0 {
        let c0 = s.get_char(0);
        if c0 == '-' {
            neg = true;
            start = 1;
        } else if c0 == '+' {
            start = 1;
        }
    }
    let ghost body_g = if s@.len() > 0 && (s@[0] == '-' || s@[0] == '+') {
        s@.skip(1)
    } else {
        s@
    };
    proof {
        assert(body_g =~= s@.subrange(start as int, n as int));
    }
    let dot = find_dot(s, start);
    proof {
        assert(body_g.subrange(0, dot - start) =~= s@.subrange(start as int, dot as int));
        if dot < n {
            assert(body_g.subrange(dot - start + 1, body_g.len() as int) =~= s@.subrange(
                dot + 1,
                n as int,
            ));
        }
    }
    if dot == start {
        return None;
    }
    let iv = digits_val_range(s, start, dot);
    let acc = match iv {
        Some(v) => v,
        None => {
            return None;
        },
    };
    if dot < n {
        if !all_digits_range(s, dot + 1, n) {
            return None;
        }
    }
    if neg {
        Some(0i64 - acc as i64)
    } else {
        Some(acc as i64)
    }
}

/// If a digit string's value fits the range, so does each prefix; stated in
/// the contrapositive direction used by the accumulator loop.
proof fn lemma_digits_all_prefix_bound(s: Seq<char>, i: int)
    requires
        0 <= i <= s.len(),
        spec_all_digits(s.subrange(0, i)),
        spec_digits_val(s.subrange(0, i)) > i64::MAX,
    ensures
        spec_all_digits(s) ==> spec_digits_val(s) > i64::MAX,
{
    if spec_all_digits(s) {
        lemma_digits_val_prefix(s, i);
    }
}

/// `spec_dot_pos` is the position of the first '.', or the length if none.
proof fn lemma_dot_pos(s: Seq<char>, p: int)
    requires
        0 <= p <= s.len(),
        forall|j: int| 0 <= j < p ==> s[j] != '.',
        p < s.len() ==> s[p] == '.',
    ensures
        spec_dot_pos(s) == p,
    decreases s.len(),
{
    if s.len() == 0 {
    } else if s[0] == '.' {
    } else {
        lemma_dot_pos(s.skip(1), p - 1);
    }
}

} // verus!

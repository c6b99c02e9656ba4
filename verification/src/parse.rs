//! Reading whole numbers typed at a prompt.

use vstd::prelude::*;

verus! {

/// An ASCII decimal digit.
pub open spec fn is_ascii_digit(c: char) -> bool {
    '0' <= c && c <= '9'
}

/// The value of an ASCII digit.
pub open spec fn digit_value(c: char) -> int {
    c as int - '0' as int
}

/// Whether every character is an ASCII digit.
pub open spec fn all_digits(s: Seq<char>) -> bool {
    forall|i: int| 0 <= i < s.len() ==> is_ascii_digit(#[trigger] s[i])
}

/// The number that a run of decimal digits denotes.
pub open spec fn digits_value(s: Seq<char>) -> int
    decreases s.len(),
{
    if s.len() == 0 {
        0
    } else {
        digits_value(s.drop_last()) * 10 + digit_value(s.last())
    }
}

/// The integer that a text denotes: an optional `+` or `-` followed by one
/// or more ASCII digits, and nothing else (no spaces).
pub open spec fn integer_from_text(s: Seq<char>) -> Option<int> {
    if s.len() > 0 && (s[0] == '-' || s[0] == '+') {
        let body = s.drop_first();
        if body.len() > 0 && all_digits(body) {
            if s[0] == '-' {
                Some(-digits_value(body))
            } else {
                Some(digits_value(body))
            }
        } else {
            None
        }
    } else if s.len() > 0 && all_digits(s) {
        Some(digits_value(s))
    } else {
        None
    }
}

/// What `i64::from_str` reads from a text: the integer it denotes, when
/// that fits in an `i64`.
pub open spec fn i64_from_text(s: Seq<char>) -> Option<i64> {
    match integer_from_text(s) {
        Some(v) => if i64::MIN <= v && v <= i64::MAX {
            Some(v as i64)
        } else {
            None
        },
        None => None,
    }
}

proof fn lemma_digits_value_nonneg(s: Seq<char>)
    requires
        all_digits(s),
    ensures
        digits_value(s) >= 0,
    decreases s.len(),
{
    if s.len() > 0 {
        assert(is_ascii_digit(s[s.len() - 1]));
        lemma_digits_value_nonneg(s.drop_last());
    }
}

/// A longer run of digits is worth at least as much as its prefix.
proof fn lemma_digits_value_prefix(s: Seq<char>, k: int)
    requires
        all_digits(s),
        0 <= k <= s.len(),
    ensures
        digits_value(s.take(k)) <= digits_value(s),
    decreases s.len(),
{
    if k < s.len() {
        assert(s.drop_last().take(k) =~= s.take(k));
        lemma_digits_value_prefix(s.drop_last(), k);
        lemma_digits_value_nonneg(s.drop_last());
        assert(is_ascii_digit(s[s.len() - 1]));
    } else {
        assert(s.take(k) =~= s);
    }
}

/// Reads an `i64` as `i64::from_str` does: an optional sign and one or more
/// ASCII digits, in range; `None` otherwise.
pub fn parse_i64(s: &str) -> (r: Option<i64>)
    ensures
        r == i64_from_text(s@),
{
    let n = s.unicode_len();
    if n == 0 {
        return None;
    }
    let first = s.get_char(0);
    let negative = first == '-';
    let start: usize = if first == '-' || first == '+' {
        1
    } else {
        0
    };
    if start == n {
        return None;
    }
    let ghost body = s@.subrange(start as int, n as int);
    proof {
        if start == 1 {
            assert(body =~= s@.drop_first());
        } else {
            assert(body =~= s@);
        }
    }
    let bound: u128 = 0x8000_0000_0000_0000;
    let mut acc: u128 = 0;
    let mut i: usize = start;
    while i < n
        invariant
            n == s@.len(),
            start <= i <= n,
            body == s@.subrange(start as int, n as int),
            all_digits(body.take(i - start)),
            acc == digits_value(body.take(i - start)),
            acc <= bound,
            bound == 0x8000_0000_0000_0000u128,
            n > 0,
            start < n,
            start <= 1,
            negative == (s@[0] == '-'),
            (start == 1) == (s@[0] == '-' || s@[0] == '+'),
            start == 1 ==> body == s@.drop_first(),
            start == 0 ==> body == s@,
        decreases n - i,
    {
        let c = s.get_char(i);
        let ghost k = i - start;
        assert(body[k] == c);
        if !('0' <= c && c <= '9') {
            assert(!all_digits(body));
            return None;
        }
        let d = (c as u32) - ('0' as u32);
        assert(body.take(k + 1).drop_last() =~= body.take(k));
        acc = acc * 10 + (d as u128);
        assert(all_digits(body.take(k + 1))) by {
            assert forall|j: int| 0 <= j < k + 1 implies is_ascii_digit(#[trigger] body.take(k + 1)[j]) by {
                if j < k {
                    assert(body.take(k + 1)[j] == body.take(k)[j]);
                }
            }
        }
        if acc > bound {
            proof {
                if all_digits(body) {
                    lemma_digits_value_prefix(body, k + 1);
                    assert(digits_value(body) > 0x8000_0000_0000_0000);
                    if start == 1 {
                        assert(s@.drop_first() == body);
                    } else {
                        assert(s@ == body);
                    }
                }
                assert(i64_from_text(s@) is None);
            }
            return None;
        }
        i = i + 1;
    }
    assert(body.take(n - start) =~= body);
    if negative {
        let v: i128 = -(acc as i128);
        Some(v as i64)
    } else if acc < bound {
        Some(acc as i64)
    } else {
        None
    }
}

} // verus!

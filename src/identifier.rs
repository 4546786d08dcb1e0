//! Reading a record identifier typed as text.
use vstd::prelude::*;

verus! {

pub open spec fn is_digit(c: char) -> bool {
    '0' <= c && c <= '9'
}

pub open spec fn digit_value(c: char) -> int {
    (c as u32) - ('0' as u32)
}

/// The number that the decimal digits `s` write.
pub open spec fn digits_value(s: Seq<char>) -> int
    decreases s.len(),
{
    if s.len() == 0 {
        0
    } else {
        digits_value(s.drop_last()) * 10 + digit_value(s.last())
    }
}

/// The digits of `s`: all of it, or all after a leading `+`.
pub open spec fn unsigned_part(s: Seq<char>) -> Seq<char> {
    if s.len() > 0 && s[0] == '+' {
        s.drop_first()
    } else {
        s
    }
}

pub open spec fn all_digits(d: Seq<char>) -> bool {
    forall|i: int| 0 <= i < d.len() ==> is_digit(#[trigger] d[i])
}

/// Whether `s` is one or more decimal digits, with an optional leading `+`.
pub open spec fn is_decimal(s: Seq<char>) -> bool {
    unsigned_part(s).len() > 0 && all_digits(unsigned_part(s))
}

/// The identifier that `s` writes, where it writes one: a decimal number
/// from 1 to `i32::MAX`.
pub open spec fn id_written(s: Seq<char>) -> Option<int> {
    if is_decimal(s) && 0 < digits_value(unsigned_part(s)) <= i32::MAX {
        Some(digits_value(unsigned_part(s)))
    } else {
        None
    }
}

proof fn lemma_digits_value_grows(s: Seq<char>, i: int, j: int)
    requires
        0 <= i <= j <= s.len(),
        all_digits(s),
    ensures
        digits_value(s.subrange(0, i)) <= digits_value(s.subrange(0, j)),
        digits_value(s.subrange(0, i)) >= 0,
    decreases j,
{
    if i < j {
        lemma_digits_value_grows(s, i, j - 1);
        assert(s.subrange(0, j).drop_last() == s.subrange(0, j - 1));
        assert(s.subrange(0, j).last() == s[j - 1]);
    } else if i > 0 {
        lemma_digits_value_grows(s, i - 1, i - 1);
        assert(s.subrange(0, i).drop_last() == s.subrange(0, i - 1));
        assert(s.subrange(0, i).last() == s[i - 1]);
    }
}

/// Reads an identifier: decimal digits, optionally after a `+`, for a
/// number from 1 to `i32::MAX`. Anything else (a sign `-`, zero, spaces,
/// other characters, a number too large) gives `None`.
pub fn parse_id(text: &str) -> (r: Option<i32>)
    ensures
        match id_written(text@) {
            Some(v) => r == Some(v as i32),
            None => r is None,
        },
{
    let n = text.unicode_len();
    let start: usize = if n > 0 && text.get_char(0) == '+' {
        1
    } else {
        0
    };
    let ghost d = unsigned_part(text@);
    assert(d == text@.subrange(start as int, n as int));
    if start == n {
        assert(!is_decimal(text@));
        return None;
    }
    let mut value: i64 = 0;
    let mut i: usize = start;
    while i < n
        invariant
            n == text@.len(),
            start < n,
            d == text@.subrange(start as int, n as int),
            d == unsigned_part(text@),
            start <= i <= n,
            forall|k: int| 0 <= k < i - start ==> is_digit(#[trigger] d[k]),
            value == digits_value(d.subrange(0, i - start)),
            0 <= value <= i32::MAX,
        decreases n - i,
    {
        let c = text.get_char(i);
        if !('0' <= c && c <= '9') {
            assert(!is_digit(d[i - start]));
            return None;
        }
        let next = value * 10 + (c as u32 - '0' as u32) as i64;
        assert(d.subrange(0, i + 1 - start).drop_last() == d.subrange(0, i - start));
        assert(d.subrange(0, i + 1 - start).last() == c);
        if next > i32::MAX as i64 {
            proof {
                if is_decimal(text@) {
                    lemma_digits_value_grows(d, i + 1 - start, d.len() as int);
                    assert(d.subrange(0, d.len() as int) == d);
                }
            }
            return None;
        }
        value = next;
        i = i + 1;
    }
    assert(d.subrange(0, d.len() as int) == d);
    assert(is_decimal(text@));
    if value == 0 {
        return None;
    }
    Some(value as i32)
}

} // verus!

//! Reading settings that are written as text: decimal numbers, and a colour
//! given as three of them.

use vstd::prelude::*;
use vstd::string::*;

verus! {

/// Whether `c` is one of `0`-`9`.
pub open spec fn is_digit(c: char) -> bool {
    0x30 <= c as u32 <= 0x39
}

/// The number that the digit `c` stands for.
pub open spec fn digit_value(c: char) -> nat {
    (c as u32 - 0x30) as nat
}

/// The number that a run of digits stands for; `None` where a character is
/// no digit. The empty run stands for 0.
pub open spec fn digits_value(s: Seq<char>) -> Option<nat>
    decreases s.len(),
{
    if s.len() == 0 {
        Some(0nat)
    } else {
        match digits_value(s.drop_last()) {
            Some(v) => if is_digit(s.last()) {
                Some(v * 10 + digit_value(s.last()))
            } else {
                None
            },
            None => None,
        }
    }
}

/// The number that `s` stands for, where it is at most `max`: an optional
/// `+`, then one digit or more.
pub open spec fn decimal(s: Seq<char>, max: nat) -> Option<nat> {
    let body = if s.len() > 0 && s[0] == '+' {
        s.subrange(1, s.len() as int)
    } else {
        s
    };
    if body.len() == 0 {
        None
    } else {
        match digits_value(body) {
            Some(v) => if v <= max {
                Some(v)
            } else {
                None
            },
            None => None,
        }
    }
}

/// A run of digits stands for at least as much as each of its beginnings,
/// and each beginning of a run of digits is one.
pub proof fn lemma_digits_prefix(s: Seq<char>, k: int)
    requires
        0 <= k <= s.len(),
        digits_value(s) is Some,
    ensures
        digits_value(s.take(k)) is Some,
        digits_value(s.take(k))->Some_0 <= digits_value(s)->Some_0,
    decreases s.len(),
{
    if k < s.len() {
        lemma_digits_prefix(s.drop_last(), k);
        assert(s.drop_last().take(k) == s.take(k));
    } else {
        assert(s.take(k) == s);
    }
}

/// The characters of `text`.
pub fn chars_of(text: &str) -> (chars: Vec<char>)
    ensures
        chars@ == text@,
{
    let n = text.unicode_len();
    let mut chars: Vec<char> = Vec::new();
    let mut i: usize = 0;
    while i < n
        invariant
            n == text@.len(),
            i <= n,
            chars@ == text@.take(i as int),
        decreases n - i,
    {
        chars.push(text.get_char(i));
        assert(text@.take(i + 1) == text@.take(i as int).push(text@[i as int]));
        i += 1;
    }
    assert(text@.take(n as int) == text@);
    chars
}

/// Reads the number that `chars` stands for, where it is at most `max`.
pub fn parse_decimal(chars: &Vec<char>, max: u64) -> (number: Option<u64>)
    ensures
        match number {
            Some(v) => decimal(chars@, max as nat) == Some(v as nat),
            None => decimal(chars@, max as nat) is None,
        },
{
    let n = chars.len();
    let start: usize = if n > 0 && chars[0] == '+' {
        1
    } else {
        0
    };
    if start == n {
        return None;
    }
    let ghost body = chars@.subrange(start as int, n as int);
    assert(start == 0 ==> body == chars@);
    let mut value: u64 = 0;
    let mut i: usize = start;
    assert(body.take(0) == Seq::<char>::empty());
    while i < n
        invariant
            n == chars@.len(),
            start <= i <= n,
            start < n,
            start <= 1,
            (start == 1) <==> (chars@[0] == '+'),
            body == chars@.subrange(start as int, n as int),
            start == 0 ==> body == chars@,
            digits_value(body.take(i - start)) == Some(value as nat),
            value <= max,
        decreases n - i,
    {
        let c = chars[i];
        let ghost longer = body.take(i - start + 1);
        assert(longer.drop_last() == body.take(i - start));
        assert(longer.last() == c);
        if !(0x30 <= c as u32 && c as u32 <= 0x39) {
            proof {
                if digits_value(body) is Some {
                    lemma_digits_prefix(body, i - start + 1);
                }
            }
            return None;
        }
        let digit: u32 = c as u32 - 0x30;
        let next: u128 = (value as u128) * 10 + (digit as u128);
        if next > max as u128 {
            proof {
                if digits_value(body) is Some {
                    lemma_digits_prefix(body, i - start + 1);
                }
            }
            return None;
        }
        value = next as u64;
        i += 1;
    }
    assert(body.take(n - start) == body);
    Some(value)
}

/// Reads an unsigned 64-bit number: an optional `+`, then one digit or more.
pub fn parse_u64(text: &str) -> (number: Option<u64>)
    ensures
        match number {
            Some(v) => decimal(text@, u64::MAX as nat) == Some(v as nat),
            None => decimal(text@, u64::MAX as nat) is None,
        },
{
    let chars = chars_of(text);
    parse_decimal(&chars, u64::MAX)
}

} // verus!

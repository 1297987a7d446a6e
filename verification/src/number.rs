//! Decimal numbers as text: reading an integer argument and writing a
//! line number.

use vstd::prelude::*;

verus! {

/// The ASCII digits.
pub open spec fn is_digit(c: char) -> bool {
    '0' <= c <= '9'
}

/// The number that a digit stands for.
pub open spec fn digit_value(c: char) -> nat {
    (c as u32 - '0' as u32) as nat
}

/// Whether every character of `s` is a digit.
pub open spec fn all_digits(s: Seq<char>) -> bool {
    forall|i: int| 0 <= i < s.len() ==> is_digit(#[trigger] s[i])
}

/// The number that a sequence of digits denotes in base ten.
pub open spec fn decimal_value(s: Seq<char>) -> nat
    decreases s.len(),
{
    if s.len() == 0 {
        0
    } else {
        decimal_value(s.drop_last()) * 10 + digit_value(s.last())
    }
}

/// The value of a sequence of digits is at least the value of each of its
/// prefixes.
pub proof fn lemma_decimal_value_prefix(s: Seq<char>, k: int)
    requires
        0 <= k <= s.len(),
    ensures
        decimal_value(s.subrange(0, k)) <= decimal_value(s),
    decreases s.len(),
{
    if k == s.len() {
        assert(s.subrange(0, k) =~= s);
    } else {
        lemma_decimal_value_prefix(s.drop_last(), k);
        assert(s.drop_last().subrange(0, k) =~= s.subrange(0, k));
    }
}

/// What a string denotes as a decimal number of at most `limit`: its value
/// where it is one or more digits and the value is within the limit.
pub open spec fn bounded_decimal(s: Seq<char>, limit: nat) -> Option<nat> {
    if s.len() > 0 && all_digits(s) && decimal_value(s) <= limit {
        Some(decimal_value(s))
    } else {
        None
    }
}

/// Reads the characters from `from` on as a decimal number: `Some` where
/// they are one or more digits whose value is at most `limit`.
pub fn parse_decimal(chars: &Vec<char>, from: usize, limit: u64) -> (r: Option<u64>)
    requires
        from <= chars.len(),
    ensures
        match bounded_decimal(chars@.skip(from as int), limit as nat) {
            Some(v) => r == Some(v as u64),
            None => r is None,
        },
{
    let ghost s = chars@.skip(from as int);
    if from == chars.len() {
        return None;
    }
    let mut acc: u64 = 0;
    let mut i: usize = from;
    while i < chars.len()
        invariant
            from <= i <= chars.len(),
            s == chars@.skip(from as int),
            all_digits(s.subrange(0, i - from)),
            acc == decimal_value(s.subrange(0, i - from)),
            acc <= limit,
        decreases chars.len() - i,
    {
        let c: char = chars[i];
        let ghost prefix = s.subrange(0, i - from);
        let ghost next = s.subrange(0, i - from + 1);
        assert(next.drop_last() =~= prefix);
        if c < '0' || c > '9' {
            assert(!is_digit(s[i - from]));
            return None;
        }
        let d: u64 = (c as u32 - '0' as u32) as u64;
        if d > limit || acc > (limit - d) / 10 {
            proof {
                lemma_decimal_value_prefix(s, i - from + 1);
            }
            return None;
        }
        acc = acc * 10 + d;
        i = i + 1;
        assert(all_digits(next));
    }
    assert(s.subrange(0, i - from) =~= s);
    Some(acc)
}

/// What a string denotes as an `i32`: an optional `+` or `-`, then one or
/// more digits, whose signed value fits the type. Every other string denotes
/// nothing.
pub open spec fn i32_of(s: Seq<char>) -> Option<i32> {
    if s.len() > 0 && s[0] == '-' {
        match bounded_decimal(s.skip(1), 0x8000_0000) {
            Some(v) => Some((-(v as int)) as i32),
            None => None,
        }
    } else if s.len() > 0 && s[0] == '+' {
        match bounded_decimal(s.skip(1), 0x7fff_ffff) {
            Some(v) => Some(v as i32),
            None => None,
        }
    } else {
        match bounded_decimal(s, 0x7fff_ffff) {
            Some(v) => Some(v as i32),
            None => None,
        }
    }
}

/// What a string denotes as a `usize`: an optional `+`, then one or more
/// digits, whose value fits the type.
pub open spec fn usize_of(s: Seq<char>) -> Option<usize> {
    if s.len() > 0 && s[0] == '+' {
        match bounded_decimal(s.skip(1), usize::MAX as nat) {
            Some(v) => Some(v as usize),
            None => None,
        }
    } else {
        match bounded_decimal(s, usize::MAX as nat) {
            Some(v) => Some(v as usize),
            None => None,
        }
    }
}

/// Reads a signed decimal integer.
pub fn parse_i32(chars: &Vec<char>) -> (r: Option<i32>)
    ensures
        r == i32_of(chars@),
{
    assert(chars@.skip(0) =~= chars@);
    if chars.len() > 0 && chars[0] == '-' {
        match parse_decimal(chars, 1, 0x8000_0000) {
            Some(v) => Some((0 - v as i64) as i32),
            None => None,
        }
    } else if chars.len() > 0 && chars[0] == '+' {
        match parse_decimal(chars, 1, 0x7fff_ffff) {
            Some(v) => Some(v as i32),
            None => None,
        }
    } else {
        match parse_decimal(chars, 0, 0x7fff_ffff) {
            Some(v) => Some(v as i32),
            None => None,
        }
    }
}

/// Reads an unsigned decimal integer.
pub fn parse_usize(chars: &Vec<char>) -> (r: Option<usize>)
    ensures
        r == usize_of(chars@),
{
    assert(chars@.skip(0) =~= chars@);
    let from: usize = if chars.len() > 0 && chars[0] == '+' {
        1
    } else {
        0
    };
    match parse_decimal(chars, from, usize::MAX as u64) {
        Some(v) => Some(v as usize),
        None => None,
    }
}

/// The character for a digit.
pub open spec fn digit_char(d: nat) -> char {
    ('0' as u32 + d) as char
}

/// A number written in base ten, without leading zeros.
pub open spec fn decimal_text(n: nat) -> Seq<char>
    decreases n,
{
    if n < 10 {
        seq![digit_char(n)]
    } else {
        decimal_text(n / 10).push(digit_char(n % 10))
    }
}

/// `n` spaces.
pub open spec fn spaces(n: nat) -> Seq<char> {
    Seq::new(n, |i: int| ' ')
}

/// `text` after as many spaces as bring it to `width` characters.
pub open spec fn right_aligned(text: Seq<char>, width: nat) -> Seq<char> {
    if text.len() < width {
        spaces((width - text.len()) as nat) + text
    } else {
        text
    }
}

/// Appends `n` in base ten to `out`.
pub fn push_decimal(out: &mut String, n: usize)
    ensures
        final(out)@ == old(out)@ + decimal_text(n as nat),
    decreases n,
{
    if n >= 10 {
        push_decimal(out, n / 10);
    }
    let d: u8 = (n % 10) as u8;
    let c: char = (48u8 + d) as char;
    out.push(c);
}

/// Appends `n` spaces to `out`.
pub fn push_spaces(out: &mut String, n: usize)
    ensures
        final(out)@ == old(out)@ + spaces(n as nat),
{
    let mut i: usize = 0;
    while i < n
        invariant
            i <= n,
            out@ == old(out)@ + spaces(i as nat),
        decreases n - i,
    {
        out.push(' ');
        i = i + 1;
    }
}

} // verus!

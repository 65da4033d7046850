//! Decimal numbers as text: writing them out and reading them back.

use vstd::prelude::*;

verus! {

/// The character of the decimal digit `d`.
pub open spec fn digit_char(d: nat) -> char
    recommends
        d < 10,
{
    (0x30 + d) as u8 as char
}

/// Whether `c` is one of `'0'` to `'9'`.
pub open spec fn is_digit(c: char) -> bool {
    '0' <= c <= '9'
}

/// The value of the decimal digit `c`.
pub open spec fn digit_value(c: char) -> nat
    recommends
        is_digit(c),
{
    (c as u32 - 0x30) as nat
}

/// The decimal digits of `n`, most significant first, without leading zeros.
pub open spec fn decimal(n: nat) -> Seq<char>
    decreases n,
{
    if n < 10 {
        seq![digit_char(n)]
    } else {
        decimal(n / 10).push(digit_char(n % 10))
    }
}

/// Whether `s` holds decimal digits only.
pub open spec fn all_digits(s: Seq<char>) -> bool {
    forall|i: int| 0 <= i < s.len() ==> is_digit(#[trigger] s[i])
}

/// The number that the decimal digits `s` denote; 0 for no digits.
pub open spec fn digits_value(s: Seq<char>) -> nat
    decreases s.len(),
{
    if s.len() == 0 {
        0
    } else {
        digits_value(s.drop_last()) * 10 + digit_value(s.last())
    }
}

/// Appends the decimal digits of `n` to `out`.
pub fn push_decimal(out: &mut String, n: u32)
    ensures
        final(out)@ == old(out)@ + decimal(n as nat),
    decreases n,
{
    if n >= 10 {
        push_decimal(out, n / 10);
    }
    let d: u8 = (n % 10) as u8;
    out.push((0x30 + d) as char);
}

/// The number that `body` denotes, if `body` is one or more decimal digits and
/// the number is at most `limit`.
pub open spec fn magnitude(body: Seq<char>, limit: nat) -> Option<nat> {
    if body.len() > 0 && all_digits(body) && digits_value(body) <= limit {
        Some(digits_value(body))
    } else {
        None
    }
}

/// The unsigned 32-bit number that `word` denotes: decimal digits, with `+` in
/// front of them or nothing.
pub open spec fn parse_unsigned(word: Seq<char>) -> Option<u32> {
    let body = if word.len() > 0 && word[0] == '+' {
        word.drop_first()
    } else {
        word
    };
    match magnitude(body, u32::MAX as nat) {
        Some(v) => Some(v as u32),
        None => None,
    }
}

/// The signed 32-bit number that `word` denotes: decimal digits, with `+` or
/// `-` in front of them or nothing.
pub open spec fn parse_signed(word: Seq<char>) -> Option<i32> {
    if word.len() > 0 && word[0] == '-' {
        match magnitude(word.drop_first(), 0x8000_0000) {
            Some(v) => Some((-v) as i32),
            None => None,
        }
    } else {
        let body = if word.len() > 0 && word[0] == '+' {
            word.drop_first()
        } else {
            word
        };
        match magnitude(body, i32::MAX as nat) {
            Some(v) => Some(v as i32),
            None => None,
        }
    }
}

/// A prefix of a digit string denotes no more than the whole string.
pub proof fn lemma_digits_value_prefix(s: Seq<char>, k: int)
    requires
        0 <= k <= s.len(),
    ensures
        digits_value(s.take(k)) <= digits_value(s),
    decreases s.len() - k,
{
    if k == s.len() {
        assert(s.take(k) == s);
    } else {
        lemma_digits_value_prefix(s.drop_last(), k);
        assert(s.drop_last().take(k) == s.take(k));
    }
}

/// What a number is written out as is made of decimal digits, at least
/// one, and denotes the number.
pub proof fn lemma_decimal_digits(n: nat)
    ensures
        decimal(n).len() > 0,
        all_digits(decimal(n)),
        digits_value(decimal(n)) == n,
    decreases n,
{
    if n < 10 {
        let s = decimal(n);
        assert(digits_value(s.drop_last()) == 0);
    } else {
        lemma_decimal_digits(n / 10);
        let s = decimal(n);
        assert(s.drop_last() == decimal(n / 10));
        assert forall|i: int| 0 <= i < s.len() implies is_digit(#[trigger] s[i]) by {}
    }
}

/// A number that is written out and read back is the same number.
pub proof fn lemma_decimal_round_trip(n: u32)
    ensures
        parse_unsigned(decimal(n as nat)) == Some(n),
{
    lemma_decimal_digits(n as nat);
}

/// Reads `word[from..]` as decimal digits that denote at most `limit`.
fn read_digits(word: &Vec<char>, from: usize, limit: u64) -> (r: Option<u64>)
    requires
        from <= word.len(),
        limit <= 0x1_0000_0000,
    ensures
        match r {
            Some(v) => magnitude(word@.skip(from as int), limit as nat) == Some(v as nat),
            None => magnitude(word@.skip(from as int), limit as nat) is None,
        },
{
    let ghost body = word@.skip(from as int);
    if from == word.len() {
        return None;
    }
    let mut v: u64 = 0;
    let mut i: usize = from;
    while i < word.len()
        invariant
            from <= i <= word.len(),
            body == word@.skip(from as int),
            limit <= 0x1_0000_0000,
            all_digits(body.take(i - from)),
            v == digits_value(body.take(i - from)),
            v <= limit,
        decreases word.len() - i,
    {
        let c = word[i];
        if !('0' <= c && c <= '9') {
            proof {
                assert(!is_digit(body[i - from]));
            }
            return None;
        }
        let d: u64 = (c as u32 - 0x30) as u64;
        proof {
            assert(body.take(i - from + 1).drop_last() == body.take(i - from));
        }
        if v * 10 + d > limit {
            proof {
                lemma_digits_value_prefix(body, i - from + 1);
            }
            return None;
        }
        v = v * 10 + d;
        i += 1;
    }
    proof {
        assert(body.take(i - from) == body);
    }
    Some(v)
}

/// Reads a word as an unsigned 32-bit decimal number.
pub fn parse_u32(word: &Vec<char>) -> (r: Option<u32>)
    ensures
        r == parse_unsigned(word@),
{
    let from: usize = if word.len() > 0 && word[0] == '+' {
        1
    } else {
        0
    };
    proof {
        assert(word@.skip(0) == word@);
    }
    match read_digits(word, from, 0xffff_ffff) {
        Some(v) => Some(v as u32),
        None => None,
    }
}

/// Reads a word as a signed 32-bit decimal number.
pub fn parse_i32(word: &Vec<char>) -> (r: Option<i32>)
    ensures
        r == parse_signed(word@),
{
    proof {
        assert(word@.skip(0) == word@);
    }
    if word.len() > 0 && word[0] == '-' {
        match read_digits(word, 1, 0x8000_0000) {
            Some(v) => Some((-(v as i64)) as i32),
            None => None,
        }
    } else {
        let from: usize = if word.len() > 0 && word[0] == '+' {
            1
        } else {
            0
        };
        match read_digits(word, from, 0x7fff_ffff) {
            Some(v) => Some(v as i32),
            None => None,
        }
    }
}

} // verus!

//! Character-level helpers shared by the classifier, the renderer and the
//! decoders.

use vstd::prelude::*;
use vstd::string::*;

verus! {

/// An ASCII decimal digit.
pub open spec fn is_digit(c: char) -> bool {
    '0' <= c <= '9'
}

/// A non-empty run of ASCII decimal digits.
pub open spec fn is_digits(s: Seq<char>) -> bool {
    &&& s.len() > 0
    &&& forall|i: int| 0 <= i < s.len() ==> is_digit(#[trigger] s[i])
}

/// `s` holds the character `c` somewhere.
pub open spec fn has_char(s: Seq<char>, c: char) -> bool {
    exists|i: int| 0 <= i < s.len() && #[trigger] s[i] == c
}

/// The characters of a string slice, in order.
pub fn to_chars(s: &str) -> (out: Vec<char>)
    ensures
        out@ == s@,
{
    let mut out: Vec<char> = Vec::new();
    for c in it: s.chars()
        invariant
            it.seq() == s@,
            out@ == it.seq().take(it.index() as int),
    {
        out.push(c);
    }
    out
}

/// Whether the window `[from, to)` of `chars` is a non-empty run of digits.
pub(crate) fn all_digits(chars: &Vec<char>, from: usize, to: usize) -> (r: bool)
    requires
        from <= to <= chars.len(),
    ensures
        r == is_digits(chars@.subrange(from as int, to as int)),
{
    if from == to {
        return false;
    }
    let ghost window = chars@.subrange(from as int, to as int);
    let mut i: usize = from;
    while i < to
        invariant
            from <= i <= to <= chars.len(),
            window == chars@.subrange(from as int, to as int),
            forall|k: int| 0 <= k < i - from ==> is_digit(#[trigger] window[k]),
        decreases to - i,
    {
        let c = chars[i];
        if !(c >= '0' && c <= '9') {
            assert(!is_digit(window[i - from]));
            return false;
        }
        i += 1;
    }
    true
}

/// Whether the window `[from, to)` of `chars` spells exactly `word`.
pub(crate) fn window_is(chars: &Vec<char>, from: usize, to: usize, word: &str) -> (r: bool)
    requires
        from <= to <= chars.len(),
    ensures
        r == (chars@.subrange(from as int, to as int) == word@),
{
    let letters = to_chars(word);
    let ghost window = chars@.subrange(from as int, to as int);
    if letters.len() != to - from {
        return false;
    }
    let mut i: usize = 0;
    while i < letters.len()
        invariant
            from <= to <= chars.len(),
            letters@ == word@,
            letters.len() == to - from,
            i <= letters.len(),
            window == chars@.subrange(from as int, to as int),
            forall|k: int| 0 <= k < i ==> #[trigger] window[k] == letters@[k],
        decreases letters.len() - i,
    {
        if chars[from + i] != letters[i] {
            return false;
        }
        i += 1;
    }
    assert(window =~= letters@);
    true
}

/// The position of the first `c` in the window `[from, to)` of `chars`.
pub(crate) fn first_position(chars: &Vec<char>, from: usize, to: usize, c: char) -> (r: Option<
    usize,
>)
    requires
        from <= to <= chars.len(),
    ensures
        match r {
            Some(p) => from <= p < to && chars@[p as int] == c && forall|k: int|
                from <= k < p ==> chars@[k] != c,
            None => forall|k: int| from <= k < to ==> chars@[k] != c,
        },
{
    let mut i: usize = from;
    while i < to
        invariant
            from <= i <= to <= chars.len(),
            forall|k: int| from <= k < i ==> chars@[k] != c,
        decreases to - i,
    {
        if chars[i] == c {
            return Some(i);
        }
        i += 1;
    }
    None
}

/// The number that a run of digits spells, read as a decimal numeral.
pub open spec fn digits_value(s: Seq<char>) -> nat
    decreases s.len(),
{
    if s.len() == 0 {
        0
    } else {
        (digits_value(s.drop_last()) * 10 + (s.last() as u32 - '0' as u32)) as nat
    }
}

/// The integer that a text spells: a run of digits, with or without a minus
/// sign before it. A text of any other form spells none.
pub open spec fn integer_of(s: Seq<char>) -> Option<int> {
    if is_digits(s) {
        Some(digits_value(s) as int)
    } else if s.len() > 0 && s[0] == '-' && is_digits(s.skip(1)) {
        Some(-(digits_value(s.skip(1)) as int))
    } else {
        None
    }
}

/// The integer that a text spells, where it fits into 64 bits.
pub open spec fn integer_in_range(s: Seq<char>) -> Option<i64> {
    match integer_of(s) {
        Some(v) => if i64::MIN <= v <= i64::MAX {
            Some(v as i64)
        } else {
            None
        },
        None => None,
    }
}

/// A numeral is worth at least as much as any of its prefixes.
proof fn lemma_digits_value_grows(s: Seq<char>, k: int)
    requires
        0 <= k <= s.len(),
        forall|i: int| 0 <= i < s.len() ==> is_digit(#[trigger] s[i]),
    ensures
        digits_value(s.take(k)) <= digits_value(s),
    decreases s.len() - k,
{
    if k == s.len() {
        assert(s.take(k) =~= s);
    } else {
        let longer = s.take(k + 1);
        assert(longer.drop_last() =~= s.take(k));
        lemma_digits_value_grows(s, k + 1);
    }
}

/// The number that a text spells, where the text is a run of digits and the
/// number is at most `limit`.
pub open spec fn bounded_value(s: Seq<char>, limit: nat) -> Option<nat> {
    if is_digits(s) && digits_value(s) <= limit {
        Some(digits_value(s))
    } else {
        None
    }
}

/// Reads the run of digits that `chars` holds from `start` on, where it
/// spells a number of at most `limit`.
pub(crate) fn parse_magnitude(chars: &Vec<char>, start: usize, limit: u128) -> (value: Option<
    u128,
>)
    requires
        start <= chars.len(),
        limit <= 0xffff_ffff_ffff_ffff,
    ensures
        match value {
            Some(v) => bounded_value(chars@.skip(start as int), limit as nat) == Some(v as nat),
            None => bounded_value(chars@.skip(start as int), limit as nat) is None,
        },
{
    let ghost numeral = chars@.skip(start as int);
    assert(numeral =~= chars@.subrange(start as int, chars@.len() as int));
    if !all_digits(chars, start, chars.len()) {
        return None;
    }
    let mut magnitude: u128 = 0;
    let mut i: usize = start;
    while i < chars.len()
        invariant
            start <= i <= chars.len(),
            numeral == chars@.skip(start as int),
            is_digits(numeral),
            limit <= 0xffff_ffff_ffff_ffff,
            magnitude == digits_value(numeral.take(i - start)),
            magnitude <= limit,
        decreases chars.len() - i,
    {
        let c = chars[i];
        let ghost longer = numeral.take(i - start + 1);
        proof {
            assert(longer.drop_last() =~= numeral.take(i - start));
            assert(is_digit(numeral[i - start]));
        }
        let digit: u128 = (c as u32 - '0' as u32) as u128;
        magnitude = magnitude * 10 + digit;
        if magnitude > limit {
            proof {
                lemma_digits_value_grows(numeral, i - start + 1);
            }
            return None;
        }
        i += 1;
    }
    proof {
        assert(numeral.take(numeral.len() as int) =~= numeral);
    }
    Some(magnitude)
}

/// Reads a decimal integer: digits, with or without a minus sign before them.
///
/// `None` for a text of another form, and for a number that does not fit into
/// 64 bits.
pub fn parse_integer(text: &str) -> (value: Option<i64>)
    ensures
        value == integer_in_range(text@),
{
    let chars = to_chars(text);
    if chars.len() > 0 && chars[0] == '-' {
        assert(!is_digit(text@[0]));
        match parse_magnitude(&chars, 1, 0x8000_0000_0000_0000) {
            Some(magnitude) => Some((0 - magnitude as i128) as i64),
            None => None,
        }
    } else {
        assert(chars@.skip(0) =~= text@);
        match parse_magnitude(&chars, 0, 0x7fff_ffff_ffff_ffff) {
            Some(magnitude) => Some(magnitude as i64),
            None => None,
        }
    }
}

/// The unsigned number that a text spells: a run of digits, with or without
/// a plus sign before it.
pub open spec fn unsigned_of(s: Seq<char>) -> Option<nat> {
    if is_digits(s) {
        Some(digits_value(s))
    } else if s.len() > 0 && s[0] == '+' && is_digits(s.skip(1)) {
        Some(digits_value(s.skip(1)))
    } else {
        None
    }
}

/// The unsigned number that a text spells, where it fits into 32 bits.
pub open spec fn unsigned_in_range(s: Seq<char>) -> Option<u32> {
    match unsigned_of(s) {
        Some(v) => if v <= u32::MAX {
            Some(v as u32)
        } else {
            None
        },
        None => None,
    }
}

/// Reads an unsigned decimal number: digits, with or without a plus sign
/// before them.
///
/// `None` for a text of another form, and for a number that does not fit into
/// 32 bits.
pub fn parse_unsigned(text: &str) -> (value: Option<u32>)
    ensures
        value == unsigned_in_range(text@),
{
    let chars = to_chars(text);
    if chars.len() > 0 && chars[0] == '+' {
        assert(!is_digit(text@[0]));
        match parse_magnitude(&chars, 1, 0xffff_ffff) {
            Some(magnitude) => Some(magnitude as u32),
            None => None,
        }
    } else {
        assert(chars@.skip(0) =~= text@);
        match parse_magnitude(&chars, 0, 0xffff_ffff) {
            Some(magnitude) => Some(magnitude as u32),
            None => None,
        }
    }
}

/// The numeral of a digit.
pub open spec fn digit_text(d: nat) -> Seq<char> {
    if d == 0 {
        "0"@
    } else if d == 1 {
        "1"@
    } else if d == 2 {
        "2"@
    } else if d == 3 {
        "3"@
    } else if d == 4 {
        "4"@
    } else if d == 5 {
        "5"@
    } else if d == 6 {
        "6"@
    } else if d == 7 {
        "7"@
    } else if d == 8 {
        "8"@
    } else {
        "9"@
    }
}

/// The decimal numeral of a number, without leading zeros.
pub open spec fn decimal_text(n: nat) -> Seq<char>
    decreases n,
{
    if n < 10 {
        digit_text(n)
    } else {
        decimal_text(n / 10) + digit_text(n % 10)
    }
}

fn digit_str(d: u32) -> (text: &'static str)
    requires
        d < 10,
    ensures
        text@ == digit_text(d as nat),
{
    if d == 0 {
        "0"
    } else if d == 1 {
        "1"
    } else if d == 2 {
        "2"
    } else if d == 3 {
        "3"
    } else if d == 4 {
        "4"
    } else if d == 5 {
        "5"
    } else if d == 6 {
        "6"
    } else if d == 7 {
        "7"
    } else if d == 8 {
        "8"
    } else {
        "9"
    }
}

/// Appends the decimal numeral of `n` to `out`.
pub fn append_decimal(out: &mut String, n: u32)
    ensures
        final(out)@ == old(out)@ + decimal_text(n as nat),
    decreases n,
{
    if n >= 10 {
        append_decimal(out, n / 10);
    }
    out.append(digit_str(n % 10));
    proof {
        if n >= 10 {
            assert(out@ =~= old(out)@ + (decimal_text((n / 10) as nat) + digit_text(
                (n % 10) as nat,
            )));
        }
    }
}

} // verus!

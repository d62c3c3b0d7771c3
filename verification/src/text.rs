//! Texts as sequences of characters: decimal numbers, base64, UTF-8.

use base64::Engine;
use vstd::prelude::*;
use vstd::utf8::*;

verus! {

/// What the standard base64 alphabet, with padding, decodes a text to;
/// `None` where the text is no such encoding.
pub uninterp spec fn base64_standard_decoding(text: Seq<char>) -> Option<Seq<u8>>;

/// The bytes of an optional buffer.
pub open spec fn optional_bytes(bytes: Option<Vec<u8>>) -> Option<Seq<u8>> {
    match bytes {
        Some(b) => Some(b@),
        None => None,
    }
}

/// Decodes a text with `base64::prelude::BASE64_STANDARD`. The result is a
/// function of the text alone; a text that the engine rejects gives `None`.
#[verifier::external_body]
pub(crate) fn base64_decode(text: &str) -> (bytes: Option<Vec<u8>>)
    ensures
        optional_bytes(bytes) == base64_standard_decoding(text@),
{
    base64::prelude::BASE64_STANDARD.decode(text).ok()
}

/// The characters of a text, in order: `str::chars`, collected.
#[verifier::external_body]
pub(crate) fn chars_of(text: &str) -> (chars: Vec<char>)
    ensures
        chars@ == text@,
{
    text.chars().collect()
}

/// The text made of the given characters, in order: `String::from_iter`.
#[verifier::external_body]
pub(crate) fn text_of(chars: &Vec<char>) -> (text: String)
    ensures
        text@ == chars@,
{
    String::from_iter(chars.iter())
}

/// Reads bytes as UTF-8 with `std::str::from_utf8`: a text exactly where
/// the bytes are well-formed UTF-8, and then the text they encode.
#[verifier::external_body]
pub(crate) fn utf8_text(bytes: &[u8]) -> (text: Option<String>)
    ensures
        match text {
            Some(t) => valid_utf8(bytes@) && t@ == decode_utf8(bytes@),
            None => !valid_utf8(bytes@),
        },
{
    std::str::from_utf8(bytes).ok().map(|t| t.to_owned())
}

/// Appends a text to another.
pub fn append_chars(to: &mut Vec<char>, from: &Vec<char>)
    ensures
        final(to)@ == old(to)@ + from@,
{
    let n: usize = from.len();
    let mut i: usize = 0;
    assert(to@ + from@.subrange(0, 0) == to@);
    while i < n
        invariant
            n == from@.len(),
            i <= n,
            to@ == old(to)@ + from@.subrange(0, i as int),
        decreases n - i,
    {
        to.push(from[i]);
        assert(to@ == old(to)@ + from@.subrange(0, i + 1));
        i += 1;
    }
    assert(from@.subrange(0, n as int) == from@);
}

/// Whether a character is a decimal digit.
pub open spec fn is_digit(c: char) -> bool {
    '0' <= c && c <= '9'
}

/// The value of a decimal digit.
pub open spec fn digit_value(c: char) -> nat {
    (c as u32 - '0' as u32) as nat
}

/// The number that a sequence of decimal digits writes.
pub open spec fn decimal_value(digits: Seq<char>) -> nat
    decreases digits.len(),
{
    if digits.len() == 0 {
        0
    } else {
        decimal_value(digits.drop_last()) * 10 + digit_value(digits.last())
    }
}

/// Whether a text is one decimal digit or more.
pub open spec fn is_decimal(digits: Seq<char>) -> bool {
    digits.len() > 0 && forall|i: int| 0 <= i < digits.len() ==> is_digit(#[trigger] digits[i])
}

/// The digits of a number text: the text without a leading plus sign.
pub open spec fn unsigned_part(text: Seq<char>) -> Seq<char> {
    if text.len() > 0 && text[0] == '+' {
        text.drop_first()
    } else {
        text
    }
}

/// The unsigned 32-bit number that a text writes: an optional plus sign,
/// then decimal digits only, with a value in range. Every other text writes
/// none.
pub open spec fn decimal_u32(text: Seq<char>) -> Option<u32> {
    let digits = unsigned_part(text);
    if is_decimal(digits) && decimal_value(digits) <= u32::MAX {
        Some(decimal_value(digits) as u32)
    } else {
        None
    }
}

/// A longer digit sequence never writes a smaller number than its prefix.
proof fn decimal_value_grows(digits: Seq<char>, k: int)
    requires
        0 <= k <= digits.len(),
    ensures
        decimal_value(digits.subrange(0, k)) <= decimal_value(digits),
    decreases digits.len() - k,
{
    if k == digits.len() {
        assert(digits.subrange(0, k) == digits);
    } else {
        decimal_value_grows(digits.drop_last(), k);
        assert(digits.drop_last().subrange(0, k) == digits.subrange(0, k));
    }
}

/// Reads an unsigned 32-bit decimal number.
pub fn parse_u32(text: &Vec<char>) -> (value: Option<u32>)
    ensures
        value == decimal_u32(text@),
{
    let n: usize = text.len();
    let start: usize = if n > 0 && text[0] == '+' {
        1
    } else {
        0
    };
    let ghost digits = unsigned_part(text@);
    assert(digits == text@.subrange(start as int, n as int));
    if start == n {
        return None;
    }
    let mut acc: u64 = 0;
    let mut i: usize = start;
    while i < n
        invariant
            start <= i <= n,
            n == text@.len(),
            digits == text@.subrange(start as int, n as int),
            digits == unsigned_part(text@),
            forall|j: int| 0 <= j < i - start ==> is_digit(#[trigger] digits[j]),
            acc == decimal_value(digits.subrange(0, i - start)),
            acc <= u32::MAX,
        decreases n - i,
    {
        let c: char = text[i];
        assert(digits[i - start] == c);
        if c < '0' || c > '9' {
            assert(!is_digit(digits[i - start]));
            return None;
        }
        let d: u64 = (c as u32 - '0' as u32) as u64;
        let ghost prefix = digits.subrange(0, i - start + 1);
        assert(prefix.drop_last() == digits.subrange(0, i - start));
        assert(prefix.last() == c);
        let next: u64 = acc * 10 + d;
        assert(next == decimal_value(prefix));
        if next > 0xFFFF_FFFF {
            proof {
                decimal_value_grows(digits, i - start + 1);
            }
            return None;
        }
        acc = next;
        i += 1;
    }
    assert(digits.subrange(0, n - start) == digits);
    Some(acc as u32)
}

/// The decimal digits of a number, without leading zeros; zero is `0`.
pub open spec fn decimal_text(n: nat) -> Seq<char>
    decreases n,
{
    if n < 10 {
        seq![digit_char(n)]
    } else {
        decimal_text(n / 10).push(digit_char(n % 10))
    }
}

/// The character of a digit.
pub open spec fn digit_char(d: nat) -> char {
    if d == 0 {
        '0'
    } else if d == 1 {
        '1'
    } else if d == 2 {
        '2'
    } else if d == 3 {
        '3'
    } else if d == 4 {
        '4'
    } else if d == 5 {
        '5'
    } else if d == 6 {
        '6'
    } else if d == 7 {
        '7'
    } else if d == 8 {
        '8'
    } else {
        '9'
    }
}

fn digit_of(d: u32) -> (c: char)
    requires
        d < 10,
    ensures
        c == digit_char(d as nat),
        is_digit(c),
        digit_value(c) == d,
{
    if d == 0 {
        '0'
    } else if d == 1 {
        '1'
    } else if d == 2 {
        '2'
    } else if d == 3 {
        '3'
    } else if d == 4 {
        '4'
    } else if d == 5 {
        '5'
    } else if d == 6 {
        '6'
    } else if d == 7 {
        '7'
    } else if d == 8 {
        '8'
    } else {
        '9'
    }
}

/// Writes an unsigned 32-bit number in decimal.
pub fn format_u32(n: u32) -> (digits: Vec<char>)
    ensures
        digits@ == decimal_text(n as nat),
{
    // The digits come out last first: collect them, then turn them round.
    let mut reversed: Vec<char> = Vec::new();
    let mut rest: u32 = n;
    while rest >= 10
        invariant
            decimal_text(n as nat) == decimal_text(rest as nat) + reversed@.reverse(),
        decreases rest,
    {
        let ghost before = reversed@;
        reversed.push(digit_of(rest % 10));
        assert(reversed@.reverse() =~= seq![digit_char((rest % 10) as nat)] + before.reverse());
        assert(decimal_text(rest as nat) == decimal_text((rest / 10) as nat).push(
            digit_char((rest % 10) as nat),
        ));
        assert(decimal_text(rest as nat) + before.reverse() =~= decimal_text((rest / 10) as nat)
            + reversed@.reverse());
        rest = rest / 10;
    }
    let ghost before = reversed@;
    reversed.push(digit_of(rest));
    assert(reversed@.reverse() =~= seq![digit_char(rest as nat)] + before.reverse());
    let m: usize = reversed.len();
    let mut digits: Vec<char> = Vec::with_capacity(m);
    let mut i: usize = 0;
    while i < m
        invariant
            m == reversed@.len(),
            i <= m,
            digits@ == reversed@.reverse().subrange(0, i as int),
        decreases m - i,
    {
        digits.push(reversed[m - 1 - i]);
        assert(digits@ =~= reversed@.reverse().subrange(0, i + 1));
        i += 1;
    }
    assert(reversed@.reverse().subrange(0, m as int) == reversed@.reverse());
    digits
}

/// The digits that `decimal_text` writes are digits, and write the number.
pub proof fn decimal_text_writes_the_number(n: nat)
    ensures
        is_decimal(decimal_text(n)),
        decimal_value(decimal_text(n)) == n,
    decreases n,
{
    let text = decimal_text(n);
    if n < 10 {
        assert(text.len() == 1);
        assert(text.last() == digit_char(n));
        assert(text.drop_last().len() == 0);
        assert(decimal_value(text.drop_last()) == 0);
        assert(is_digit(digit_char(n)) && digit_value(digit_char(n)) == n);
    } else {
        decimal_text_writes_the_number(n / 10);
        let head = decimal_text(n / 10);
        assert(text == head.push(digit_char(n % 10)));
        assert(text.drop_last() == head);
        assert(text.last() == digit_char(n % 10));
        assert(is_digit(digit_char(n % 10)) && digit_value(digit_char(n % 10)) == n % 10);
        assert forall|i: int| 0 <= i < text.len() implies is_digit(#[trigger] text[i]) by {
            if i < head.len() {
                assert(text[i] == head[i]);
            }
        }
    }
}

/// A number that was written in decimal is read back as itself.
pub proof fn decimal_round_trip(n: u32)
    ensures
        decimal_u32(decimal_text(n as nat)) == Some(n),
{
    decimal_text_writes_the_number(n as nat);
    let text = decimal_text(n as nat);
    assert(is_digit(text[0]));
    assert(unsigned_part(text) == text);
}

} // verus!

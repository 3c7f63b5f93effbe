//! Helpers on text that the decoders and the intrinsic classes share.

use vstd::prelude::*;
use vstd::string::StrSliceExecFns;
use vstd::utf8::{decode_utf8, encode_utf8, valid_utf8};

verus! {

/// Whether two texts hold the same characters.
pub fn same_text(a: &str, b: &str) -> (same: bool)
    ensures
        same == (a@ == b@),
{
    let x = a.as_bytes();
    let y = b.as_bytes();
    proof {
        // Two texts with the same encoding are the same text.
        vstd::utf8::encode_utf8_decode_utf8(a@);
        vstd::utf8::encode_utf8_decode_utf8(b@);
    }
    if x.len() != y.len() {
        return false;
    }
    let mut i: usize = 0;
    while i < x.len()
        invariant
            x@ == encode_utf8(a@),
            y@ == encode_utf8(b@),
            decode_utf8(encode_utf8(a@)) == a@,
            decode_utf8(encode_utf8(b@)) == b@,
            x.len() == y.len(),
            i <= x.len(),
            forall|j: int| 0 <= j < i ==> x@[j] == y@[j],
        decreases x.len() - i,
    {
        if x[i] != y[i] {
            return false;
        }
        i += 1;
    }
    assert(x@ =~= y@);
    true
}

/// `String::from_utf8` of the standard library: the text that `bytes` encode
/// in UTF-8, or `None` where they are not well-formed UTF-8. Not verified; the
/// contract restates the documentation of that function over `vstd::utf8`.
#[verifier::external_body]
pub(crate) fn text_from_utf8(bytes: Vec<u8>) -> (text: Option<String>)
    ensures
        text is Some <==> valid_utf8(bytes@),
        text matches Some(s) ==> s@ == decode_utf8(bytes@),
{
    match String::from_utf8(bytes) {
        Ok(s) => Some(s),
        Err(_) => None,
    }
}


/// Whether `c` is one of the digits `0` to `9`.
pub open spec fn is_digit(c: char) -> bool {
    '0' as int <= c as int <= '9' as int
}

/// The value of a digit; 0 for any other character.
pub open spec fn digit_value(c: char) -> nat {
    if is_digit(c) {
        (c as int - '0' as int) as nat
    } else {
        0
    }
}

/// Whether the text consists of digits only.
pub open spec fn all_digits(text: Seq<char>) -> bool {
    forall|i: int| 0 <= i < text.len() ==> is_digit(#[trigger] text[i])
}

/// The number that a text of digits denotes in decimal.
pub open spec fn digits_value(text: Seq<char>) -> nat
    decreases text.len(),
{
    if text.len() == 0 {
        0
    } else {
        digits_value(text.drop_last()) * 10 + digit_value(text.last())
    }
}

/// The 32-bit integer that a text denotes in decimal: an optional sign `+` or
/// `-`, then one digit or more, and nothing else; `None` for any other text
/// and for a number that does not fit in 32 bits.
pub open spec fn parsed_int(text: Seq<char>) -> Option<i32> {
    let negative = text.len() > 0 && text[0] == '-';
    let signed = text.len() > 0 && (text[0] == '-' || text[0] == '+');
    let number = if signed {
        text.subrange(1, text.len() as int)
    } else {
        text
    };
    let value = if negative {
        -(digits_value(number) as int)
    } else {
        digits_value(number) as int
    };
    if number.len() > 0 && all_digits(number) && i32::MIN <= value <= i32::MAX {
        Some(value as i32)
    } else {
        None
    }
}

/// A text of digits denotes no less than any of its beginnings.
pub proof fn lemma_digits_value_grows(text: Seq<char>, n: int)
    requires
        0 <= n <= text.len(),
    ensures
        digits_value(text.take(n)) <= digits_value(text),
    decreases text.len() - n,
{
    if n < text.len() {
        lemma_digits_value_grows(text, n + 1);
        assert(text.take(n + 1).drop_last() =~= text.take(n));
    } else {
        assert(text.take(n) =~= text);
    }
}

/// Reads a text as a decimal 32-bit integer.
pub fn parse_int(text: &str) -> (value: Option<i32>)
    ensures
        value == parsed_int(text@),
{
    let len: usize = text.unicode_len();
    if len == 0 {
        return None;
    }
    let first = text.get_char(0);
    let negative = first == '-';
    let start: usize = if first == '-' || first == '+' {
        1
    } else {
        0
    };
    let ghost number = text@.subrange(start as int, len as int);
    if start == len {
        return None;
    }
    let mut value: i64 = 0;
    let mut i: usize = start;
    assert(number.take(0) =~= Seq::<char>::empty());
    while i < len
        invariant
            len == text@.len(),
            len > 0,
            negative == (text@[0] == '-'),
            start == (if text@[0] == '-' || text@[0] == '+' {
                1usize
            } else {
                0usize
            }),
            start <= i <= len,
            number == text@.subrange(start as int, len as int),
            all_digits(number.take(i - start)),
            value == digits_value(number.take(i - start)),
            value <= 0x8000_0000,
        decreases len - i,
    {
        let c = text.get_char(i);
        let code: u32 = c as u32;
        if code < 48 || code > 57 {
            assert(!is_digit(number[i - start]));
            assert(start == 0 ==> number =~= text@);
            return None;
        }
        proof {
            assert(number.take(i - start + 1).drop_last() =~= number.take(i - start));
            assert(number.take(i - start + 1).last() == c);
            assert forall|k: int| 0 <= k < i - start + 1 implies is_digit(
                #[trigger] number.take(i - start + 1)[k],
            ) by {
                if k < i - start {
                    assert(is_digit(number.take(i - start)[k]));
                }
            }
        }
        value = value * 10 + (code - 48) as i64;
        i += 1;
        if value > 0x8000_0000 {
            proof {
                lemma_digits_value_grows(number, i - start);
                assert(start == 0 ==> number =~= text@);
            }
            return None;
        }
    }
    assert(number.take(i - start) =~= number);
    assert(start == 0 ==> number =~= text@);
    if negative {
        Some((-value) as i32)
    } else if value > 0x7fff_ffff {
        None
    } else {
        Some(value as i32)
    }
}

/// The lower-case form of a text, as `str::to_lowercase` of the standard
/// library gives it.
pub uninterp spec fn lowercase_of(text: Seq<char>) -> Seq<char>;

/// `str::to_lowercase` of the standard library. Not verified: the contract
/// only gives the result its name.
#[verifier::external_body]
pub(crate) fn to_lowercase(text: &str) -> (lower: String)
    ensures
        lower@ == lowercase_of(text@),
{
    text.to_lowercase()
}

/// `str::starts_with` of the standard library, for a text as the pattern:
/// whether `text` begins with the characters of `prefix`. Not verified.
#[verifier::external_body]
pub(crate) fn starts_with(text: &str, prefix: &str) -> (starts: bool)
    ensures
        starts == prefix@.is_prefix_of(text@),
{
    text.starts_with(prefix)
}

/// `String::push` of the standard library: appends one character. Not
/// verified.
#[verifier::external_body]
pub(crate) fn push_char(text: &mut String, c: char)
    ensures
        final(text)@ == old(text)@.push(c),
{
    text.push(c)
}

/// The character of a decimal digit.
pub open spec fn digit_char(d: int) -> char {
    ('0' as int + d) as char
}

/// The decimal digits of a natural number, without leading zeros.
pub open spec fn digits(n: nat) -> Seq<char>
    decreases n,
{
    if n < 10 {
        seq![digit_char(n as int)]
    } else {
        digits(n / 10).push(digit_char((n % 10) as int))
    }
}

/// An integer in decimal: its digits, after a `-` where it is negative.
pub open spec fn decimal(i: int) -> Seq<char> {
    if i < 0 {
        seq!['-'] + digits((-i) as nat)
    } else {
        digits(i as nat)
    }
}

/// The character of the digit `d`.
fn digit(d: u32) -> (c: char)
    requires
        d < 10,
    ensures
        c == digit_char(d as int),
{
    match d {
        0 => '0',
        1 => '1',
        2 => '2',
        3 => '3',
        4 => '4',
        5 => '5',
        6 => '6',
        7 => '7',
        8 => '8',
        _ => '9',
    }
}

/// Appends the decimal digits of `n` to `text`.
fn push_digits(text: &mut String, n: u32)
    ensures
        final(text)@ == old(text)@ + digits(n as nat),
    decreases n,
{
    if n >= 10 {
        push_digits(text, n / 10);
    }
    push_char(text, digit(n % 10));
    assert(text@ =~= old(text)@ + digits(n as nat));
}

/// An integer as a text, in decimal.
pub fn decimal_text(i: i32) -> (text: String)
    ensures
        text@ == decimal(i as int),
{
    let mut text = String::new();
    if i < 0 {
        push_char(&mut text, '-');
        push_digits(&mut text, (-(i as i64)) as u32);
        assert(text@ =~= decimal(i as int));
    } else {
        push_digits(&mut text, i as u32);
        assert(text@ =~= decimal(i as int));
    }
    text
}

/// The hash of a sequence of bytes: `b[0]*31^(n-1) + ... + b[n-1]` in
/// wrapping 32-bit arithmetic.
pub open spec fn hash_code(bytes: Seq<u8>) -> i32
    decreases bytes.len(),
{
    if bytes.len() == 0 {
        0
    } else {
        crate::arith::wrap32(hash_code(bytes.drop_last()) * 31 + bytes.last()) as i32
    }
}

/// The hash of the UTF-8 bytes of a text.
pub fn hash_text(text: &str) -> (hash: i32)
    ensures
        hash == hash_code(encode_utf8(text@)),
{
    let bytes = text.as_bytes();
    let mut hash: i32 = 0;
    let mut i: usize = 0;
    while i < bytes.len()
        invariant
            i <= bytes.len(),
            hash == hash_code(bytes@.take(i as int)),
        decreases bytes.len() - i,
    {
        assert(bytes@.take(i + 1).drop_last() =~= bytes@.take(i as int));
        hash = hash.wrapping_mul(31).wrapping_add(bytes[i] as i32);
        i += 1;
    }
    assert(bytes@.take(i as int) =~= bytes@);
    hash
}

} // verus!

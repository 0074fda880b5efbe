//! Text: numbers in decimal and hexadecimal, padding and repetition, the
//! comparison of texts, and the reading of hexadecimal numbers. What a
//! function writes or reads is stated as a sequence of characters.

use vstd::prelude::*;
use vstd::string::*;

verus! {

/// `String::push` appends one character.
pub assume_specification[ String::push ](s: &mut String, c: char)
    ensures
        final(s)@ == old(s)@.push(c),
;

/// `str`'s `==` holds when both hold the same characters.
pub assume_specification[ <str as PartialEq>::eq ](a: &str, b: &str) -> (res: bool)
    ensures
        res == (a@ == b@),
;

/// Whether two texts hold the same characters.
pub fn same_text(a: &str, b: &str) -> (res: bool)
    ensures
        res == (a@ == b@),
{
    *a == *b
}

/// The character of a digit below sixteen, lower case.
pub open spec fn digit_char(d: nat) -> char {
    if d < 10 {
        (48 + d) as char
    } else {
        (87 + d) as char
    }
}

/// The decimal digits of a number, most significant first.
pub open spec fn decimal(n: nat) -> Seq<char>
    decreases n,
{
    if n < 10 {
        seq![digit_char(n)]
    } else {
        decimal(n / 10).push(digit_char(n % 10))
    }
}

/// The decimal form of a signed number, with `-` before a negative one.
pub open spec fn signed_decimal(n: int) -> Seq<char> {
    if n < 0 {
        seq!['-'] + decimal((-n) as nat)
    } else {
        decimal(n as nat)
    }
}

/// The lower-case hexadecimal digits of a number, most significant first.
pub open spec fn hex(n: nat) -> Seq<char>
    decreases n,
{
    if n < 16 {
        seq![digit_char(n)]
    } else {
        hex(n / 16).push(digit_char(n % 16))
    }
}

/// `count` copies of one character.
pub open spec fn repeat(c: char, count: nat) -> Seq<char> {
    Seq::new(count, |i: int| c)
}

/// `text` with `fill` put before it until it is `width` characters long.
pub open spec fn pad_left(text: Seq<char>, width: nat, fill: char) -> Seq<char> {
    if text.len() >= width {
        text
    } else {
        repeat(fill, (width - text.len()) as nat) + text
    }
}

/// `text` with `fill` put after it until it is `width` characters long.
pub open spec fn pad_right(text: Seq<char>, width: nat, fill: char) -> Seq<char> {
    if text.len() >= width {
        text
    } else {
        text + repeat(fill, (width - text.len()) as nat)
    }
}

/// The character of a digit below sixteen.
pub fn digit(d: u8) -> (c: char)
    requires
        d < 16,
    ensures
        c == digit_char(d as nat),
{
    if d < 10 {
        (48 + d) as char
    } else {
        (87 + d) as char
    }
}

/// Appends the decimal digits of `n`.
pub fn push_decimal(s: &mut String, n: u64)
    ensures
        final(s)@ == old(s)@ + decimal(n as nat),
    decreases n,
{
    if n >= 10 {
        push_decimal(s, n / 10);
    }
    s.push(digit((n % 10) as u8));
}

/// Appends the decimal digits of a number of up to 128 bits.
pub fn push_decimal_wide(s: &mut String, n: u128)
    ensures
        final(s)@ == old(s)@ + decimal(n as nat),
    decreases n,
{
    if n >= 10 {
        push_decimal_wide(s, n / 10);
    }
    s.push(digit((n % 10) as u8));
}

/// Appends the decimal form of a signed number.
pub fn push_signed_decimal(s: &mut String, n: i64)
    ensures
        final(s)@ == old(s)@ + signed_decimal(n as int),
{
    if n < 0 {
        s.push('-');
        let magnitude: u64 = if n == i64::MIN {
            0x8000_0000_0000_0000u64
        } else {
            (-n) as u64
        };
        push_decimal(s, magnitude);
    } else {
        push_decimal(s, n as u64);
    }
}

/// Appends the hexadecimal digits of `n`.
pub fn push_hex(s: &mut String, n: u64)
    ensures
        final(s)@ == old(s)@ + hex(n as nat),
    decreases n,
{
    if n >= 16 {
        push_hex(s, n / 16);
    }
    s.push(digit((n % 16) as u8));
}

/// Appends `count` copies of `c`.
pub fn push_repeat(s: &mut String, c: char, count: usize)
    ensures
        final(s)@ == old(s)@ + repeat(c, count as nat),
{
    let mut i: usize = 0;
    while i < count
        invariant
            i <= count,
            s@ == old(s)@ + repeat(c, i as nat),
        decreases count - i,
    {
        s.push(c);
        i += 1;
        assert(s@ =~= old(s)@ + repeat(c, i as nat));
    }
}

/// Appends `text`, with `fill` before it up to `width` characters.
pub fn push_pad_left(s: &mut String, text: &str, width: usize, fill: char)
    ensures
        final(s)@ == old(s)@ + pad_left(text@, width as nat, fill),
{
    let len = text.unicode_len();
    if len < width {
        push_repeat(s, fill, width - len);
    }
    s.append(text);
    assert(s@ =~= old(s)@ + pad_left(text@, width as nat, fill));
}

/// Appends `text`, with `fill` after it up to `width` characters.
pub fn push_pad_right(s: &mut String, text: &str, width: usize, fill: char)
    ensures
        final(s)@ == old(s)@ + pad_right(text@, width as nat, fill),
{
    let len = text.unicode_len();
    s.append(text);
    if len < width {
        push_repeat(s, fill, width - len);
    }
    assert(s@ =~= old(s)@ + pad_right(text@, width as nat, fill));
}

/// Appends the hexadecimal digits of `n`, with zeros before them up to
/// `width` characters.
pub fn push_hex_padded(s: &mut String, n: u64, width: usize)
    ensures
        final(s)@ == old(s)@ + pad_left(hex(n as nat), width as nat, '0'),
{
    let mut digits = String::new();
    push_hex(&mut digits, n);
    assert(digits@ =~= hex(n as nat));
    push_pad_left(s, digits.as_str(), width, '0');
}

/// Appends the decimal digits of `n`, with spaces before them up to `width`
/// characters.
pub fn push_decimal_padded(s: &mut String, n: u64, width: usize)
    ensures
        final(s)@ == old(s)@ + pad_left(decimal(n as nat), width as nat, ' '),
{
    let mut digits = String::new();
    push_decimal(&mut digits, n);
    assert(digits@ =~= decimal(n as nat));
    push_pad_left(s, digits.as_str(), width, ' ');
}

/// Appends the decimal form of a signed number, with spaces before it up to
/// `width` characters.
pub fn push_signed_decimal_padded(s: &mut String, n: i64, width: usize)
    ensures
        final(s)@ == old(s)@ + pad_left(signed_decimal(n as int), width as nat, ' '),
{
    let mut digits = String::new();
    push_signed_decimal(&mut digits, n);
    assert(digits@ =~= signed_decimal(n as int));
    push_pad_left(s, digits.as_str(), width, ' ');
}

/// Whether `text` begins with `prefix`.
pub fn starts_with(text: &str, prefix: &str) -> (res: bool)
    ensures
        res == prefix@.is_prefix_of(text@),
{
    let n = prefix.unicode_len();
    if text.unicode_len() < n {
        return false;
    }
    let mut i: usize = 0;
    while i < n
        invariant
            i <= n == prefix@.len() <= text@.len(),
            forall|j: int| 0 <= j < i ==> prefix@[j] == text@[j],
        decreases n - i,
    {
        if prefix.get_char(i) != text.get_char(i) {
            return false;
        }
        i += 1;
    }
    assert(prefix@ =~= text@.subrange(0, prefix@.len() as int));
    true
}

/// `text` without `prefix` at its front, where it begins with it; else
/// `text`.
pub open spec fn without_prefix(text: Seq<char>, prefix: Seq<char>) -> Seq<char> {
    if prefix.is_prefix_of(text) {
        text.subrange(prefix.len() as int, text.len() as int)
    } else {
        text
    }
}

/// `text` without `prefix` at its front, where it begins with it; else
/// `text`.
pub fn strip_prefix<'a>(text: &'a str, prefix: &str) -> (res: &'a str)
    ensures
        res@ == without_prefix(text@, prefix@),
{
    if starts_with(text, prefix) {
        text.substring_char(prefix.unicode_len(), text.unicode_len())
    } else {
        text
    }
}

/// A text between double quotes with its special characters escaped, as
/// Rust's `Debug` formats a `str`.
pub uninterp spec fn quoted(text: Seq<char>) -> Seq<char>;

/// `<str as core::fmt::Debug>::fmt`, through `format!`: the text between
/// double quotes, with its special characters escaped.
#[verifier::external_body]
pub(crate) fn debug_quoted(text: &str) -> (out: String)
    ensures
        out@ == quoted(text@),
{
    format!("{:?}", text)
}

/// The value of a hexadecimal digit of either case.
pub open spec fn digit_value(c: char) -> Option<nat> {
    if '0' <= c <= '9' {
        Some((c as nat - 48) as nat)
    } else if 'a' <= c <= 'f' {
        Some((c as nat - 87) as nat)
    } else if 'A' <= c <= 'F' {
        Some((c as nat - 55) as nat)
    } else {
        None
    }
}

/// The number that hexadecimal digits stand for, most significant first;
/// nothing where one of them is no digit.
pub open spec fn digits_value(digits: Seq<char>) -> Option<nat>
    decreases digits.len(),
{
    if digits.len() == 0 {
        Some(0)
    } else {
        match (digits_value(digits.drop_last()), digit_value(digits.last())) {
            (Some(high), Some(low)) => Some(16 * high + low),
            _ => None,
        }
    }
}

/// `text` without any `0x` at its front, however often it is repeated.
pub open spec fn without_0x(text: Seq<char>) -> Seq<char>
    decreases text.len(),
{
    if text.len() >= 2 && text[0] == '0' && text[1] == 'x' {
        without_0x(text.skip(2))
    } else {
        text
    }
}

/// The 64-bit number that a hexadecimal text stands for: any `0x` at its
/// front is passed over, a `+` may follow, then at least one digit.
pub open spec fn hex_number(text: Seq<char>) -> Option<u64> {
    let bare = without_0x(text);
    number_of(
        if bare.len() > 0 && bare[0] == '+' {
            bare.skip(1)
        } else {
            bare
        },
    )
}

/// The 64-bit number that hexadecimal digits stand for: there is at least
/// one, and each is a digit.
pub open spec fn number_of(digits: Seq<char>) -> Option<u64> {
    if digits.len() == 0 {
        None
    } else {
        match digits_value(digits) {
            Some(v) => if v <= u64::MAX {
                Some(v as u64)
            } else {
                None
            },
            None => None,
        }
    }
}

/// The value of a hexadecimal digit of either case.
pub fn hex_digit_value(c: char) -> (v: Option<u8>)
    ensures
        match v {
            Some(d) => digit_value(c) == Some(d as nat) && d < 16,
            None => digit_value(c) is None,
        },
{
    if '0' <= c && c <= '9' {
        Some((c as u32 - 48) as u8)
    } else if 'a' <= c && c <= 'f' {
        Some((c as u32 - 87) as u8)
    } else if 'A' <= c && c <= 'F' {
        Some((c as u32 - 55) as u8)
    } else {
        None
    }
}

/// Digits that stand for a number stand for a greater one with more digits
/// behind them, or for none.
pub proof fn lemma_more_digits_exceed(digits: Seq<char>, k: int)
    requires
        0 <= k <= digits.len(),
        digits_value(digits.take(k)) matches Some(v) && v > u64::MAX,
    ensures
        digits_value(digits) matches Some(v) ==> v > u64::MAX,
    decreases digits.len() - k,
{
    if k < digits.len() {
        assert(digits.take(k + 1).drop_last() =~= digits.take(k));
        if digits_value(digits.take(k + 1)) is Some {
            lemma_more_digits_exceed(digits, k + 1);
        } else {
            lemma_bad_digit_spoils(digits, k + 1);
        }
    } else {
        assert(digits.take(k) =~= digits);
    }
}

/// Digits of which a front part stands for no number stand for none.
pub proof fn lemma_bad_digit_spoils(digits: Seq<char>, k: int)
    requires
        0 <= k <= digits.len(),
        digits_value(digits.take(k)) is None,
    ensures
        digits_value(digits) is None,
    decreases digits.len() - k,
{
    if k < digits.len() {
        assert(digits.take(k + 1).drop_last() =~= digits.take(k));
        lemma_bad_digit_spoils(digits, k + 1);
    } else {
        assert(digits.take(k) =~= digits);
    }
}

/// Reads a hexadecimal number: any `0x` at the front is passed over, a `+`
/// may follow, then at least one digit of either case.
pub fn parse_hex(text: &str) -> (res: Option<u64>)
    ensures
        res == hex_number(text@),
{
    let n = text.unicode_len();
    let mut start: usize = 0;
    assert(text@.skip(0) =~= text@);
    while n - start >= 2 && text.get_char(start) == '0' && text.get_char(start + 1) == 'x'
        invariant
            start <= n == text@.len(),
            without_0x(text@) == without_0x(text@.skip(start as int)),
        decreases n - start,
    {
        assert(text@.skip(start as int).skip(2) =~= text@.skip(start + 2));
        start += 2;
    }
    if start < n && text.get_char(start) == '+' {
        assert(text@.skip(start as int).skip(1) =~= text@.skip(start + 1));
        start += 1;
    }
    let ghost digits = text@.skip(start as int);
    if start == n {
        return None;
    }
    let mut value: u64 = 0;
    let mut i: usize = start;
    assert(digits.take(0) =~= Seq::<char>::empty());
    while i < n
        invariant
            start <= i <= n == text@.len(),
            digits == text@.skip(start as int),
            hex_number(text@) == number_of(digits),
            digits_value(digits.take(i - start)) == Some(value as nat),
        decreases n - i,
    {
        assert(digits.take(i - start + 1).drop_last() =~= digits.take(i - start));
        assert(digits.take(i - start + 1).last() == text@[i as int]);
        match hex_digit_value(text.get_char(i)) {
            None => {
                proof {
                    lemma_bad_digit_spoils(digits, i - start + 1);
                }
                return None;
            },
            Some(d) => {
                if value > (u64::MAX - d as u64) / 16 {
                    proof {
                        lemma_more_digits_exceed(digits, i - start + 1);
                    }
                    return None;
                }
                value = value * 16 + d as u64;
            },
        }
        i += 1;
    }
    assert(digits.take(n - start) =~= digits);
    Some(value)
}

} // verus!

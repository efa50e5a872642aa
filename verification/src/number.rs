//! Decimal numbers.
use crate::text::chars_of;
use vstd::prelude::*;

verus! {

/// The character of a decimal digit.
pub open spec fn digit(d: nat) -> char {
    (48 + d) as char
}

/// `n` in decimal, without leading zeros.
pub open spec fn decimal(n: nat) -> Seq<char>
    decreases n,
{
    if n < 10 {
        seq![digit(n)]
    } else {
        decimal(n / 10).push(digit(n % 10))
    }
}

/// `n` in decimal, with leading zeros up to `width` digits.
pub open spec fn padded(n: nat, width: nat) -> Seq<char> {
    let digits = decimal(n);
    if digits.len() < width {
        Seq::new((width - digits.len()) as nat, |i: int| '0') + digits
    } else {
        digits
    }
}

/// `n` in decimal, with a minus sign where it is negative.
pub open spec fn signed_decimal(n: int) -> Seq<char> {
    if n < 0 {
        seq!['-'] + decimal((-n) as nat)
    } else {
        decimal(n as nat)
    }
}

/// Appends `n` in decimal.
pub fn push_decimal(out: &mut String, n: u64)
    ensures
        final(out)@ == old(out)@ + decimal(n as nat),
    decreases n,
{
    let ghost before = out@;
    if n >= 10 {
        push_decimal(out, n / 10);
    }
    let d: u8 = (n % 10) as u8;
    out.push((48 + d) as char);
    assert(out@ =~= before + decimal(n as nat));
}

/// `n` in decimal.
pub fn to_decimal(n: u64) -> (text: String)
    ensures
        text@ == decimal(n as nat),
{
    let mut text = String::new();
    push_decimal(&mut text, n);
    assert(text@ =~= decimal(n as nat));
    text
}

/// `n` in decimal, with a minus sign where it is negative.
pub fn to_signed_decimal(n: i64) -> (text: String)
    ensures
        text@ == signed_decimal(n as int),
{
    if n < 0 {
        let magnitude: u64 = if n == i64::MIN {
            9223372036854775808
        } else {
            (-n) as u64
        };
        let mut text = String::new();
        text.push('-');
        push_decimal(&mut text, magnitude);
        assert(text@ =~= signed_decimal(n as int));
        text
    } else {
        to_decimal(n as u64)
    }
}

/// Appends `n` in decimal, with leading zeros up to `width` digits.
pub fn push_padded(out: &mut String, n: u32, width: usize)
    ensures
        final(out)@ == old(out)@ + padded(n as nat, width as nat),
{
    let ghost before = out@;
    let digits = chars_of(to_decimal(n as u64).as_str());
    let missing: usize = if digits.len() < width {
        width - digits.len()
    } else {
        0
    };
    let mut i: usize = 0;
    while i < missing
        invariant
            i <= missing,
            out@ == before + Seq::new(i as nat, |k: int| '0'),
        decreases missing - i,
    {
        out.push('0');
        i += 1;
        assert(out@ =~= before + Seq::new(i as nat, |k: int| '0'));
    }
    push_decimal(out, n as u64);
    assert(out@ =~= before + padded(n as nat, width as nat));
}

/// A decimal digit.
pub open spec fn is_digit(c: char) -> bool {
    '0' <= c <= '9'
}

/// The number that a digit stands for.
pub open spec fn digit_value(c: char) -> nat {
    (c as int - '0' as int) as nat
}

/// One digit or more, and nothing else.
pub open spec fn all_digits(s: Seq<char>) -> bool {
    s.len() > 0 && forall|i: int| 0 <= i < s.len() ==> is_digit(#[trigger] s[i])
}

/// The number that a row of digits stands for.
pub open spec fn digits_value(s: Seq<char>) -> nat
    decreases s.len(),
{
    if s.len() == 0 {
        0
    } else {
        digits_value(s.drop_last()) * 10 + digit_value(s.last())
    }
}

/// The number up to `max` that `s` writes: an optional plus sign and digits.
pub open spec fn parsed_unsigned(s: Seq<char>, max: nat) -> Option<nat> {
    let digits = if s.len() > 0 && s[0] == '+' {
        s.skip(1)
    } else {
        s
    };
    if all_digits(digits) && digits_value(digits) <= max {
        Some(digits_value(digits))
    } else {
        None
    }
}

/// The 64-bit number that `s` writes: an optional sign and digits.
pub open spec fn parsed_i64(s: Seq<char>) -> Option<int> {
    if s.len() > 0 && s[0] == '-' {
        let digits = s.skip(1);
        if all_digits(digits) && digits_value(digits) <= 0x8000_0000_0000_0000 {
            Some(-(digits_value(digits) as int))
        } else {
            None
        }
    } else {
        match parsed_unsigned(s, 0x7fff_ffff_ffff_ffff) {
            Some(n) => Some(n as int),
            None => None,
        }
    }
}

/// More digits never make a smaller number.
pub proof fn digits_value_grows(s: Seq<char>, i: int)
    requires
        0 <= i <= s.len(),
    ensures
        digits_value(s.take(i)) <= digits_value(s),
    decreases s.len(),
{
    if i < s.len() {
        digits_value_grows(s.drop_last(), i);
        assert(s.drop_last().take(i) =~= s.take(i));
    } else {
        assert(s.take(i) =~= s);
    }
}

/// The number up to `max` that the digits from `from` on stand for.
fn parse_digits(s: &[char], from: usize, max: u64) -> (n: Option<u64>)
    requires
        from <= s@.len(),
    ensures
        match n {
            Some(n) => all_digits(s@.skip(from as int)) && n == digits_value(s@.skip(from as int))
                && n <= max,
            None => !(all_digits(s@.skip(from as int)) && digits_value(s@.skip(from as int))
                <= max),
        },
{
    let ghost digits = s@.skip(from as int);
    let len: usize = s.len();
    if from == len {
        return None;
    }
    let mut value: u64 = 0;
    let mut i: usize = from;
    assert(digits.take(0) =~= Seq::<char>::empty());
    while i < len
        invariant
            from <= i <= len,
            len == s@.len(),
            digits == s@.skip(from as int),
            value == digits_value(digits.take(i - from)),
            value <= max,
            forall|j: int| 0 <= j < i - from ==> is_digit(#[trigger] digits[j]),
        decreases len - i,
    {
        let c = s[i];
        if !('0' <= c && c <= '9') {
            assert(!is_digit(digits[i - from]));
            return None;
        }
        let d: u64 = (c as u32 - '0' as u32) as u64;
        proof {
            let next = digits.take(i + 1 - from);
            assert(next.drop_last() =~= digits.take(i - from));
            assert(next.last() == c);
            assert(digits_value(next) == value * 10 + d);
            digits_value_grows(digits, i + 1 - from);
        }
        if value > max / 10 || d > max - value * 10 {
            return None;
        }
        value = value * 10 + d;
        i += 1;
    }
    assert(digits.take(digits.len() as int) =~= digits);
    Some(value)
}

/// The number up to `max` that `s` writes: an optional plus sign and digits.
pub fn parse_unsigned(s: &str, max: u64) -> (n: Option<u64>)
    ensures
        match n {
            Some(n) => parsed_unsigned(s@, max as nat) == Some(n as nat),
            None => parsed_unsigned(s@, max as nat) is None,
        },
        n matches Some(n) ==> n <= max,
{
    let chars = chars_of(s);
    assert(s@.skip(0) =~= s@);
    if chars.len() > 0 && chars[0] == '+' {
        parse_digits(chars.as_slice(), 1, max)
    } else {
        parse_digits(chars.as_slice(), 0, max)
    }
}

/// The number that `s` writes: an optional plus sign and digits.
pub fn parse_u32(s: &str) -> (n: Option<u32>)
    ensures
        match n {
            Some(n) => parsed_unsigned(s@, u32::MAX as nat) == Some(n as nat),
            None => parsed_unsigned(s@, u32::MAX as nat) is None,
        },
{
    match parse_unsigned(s, 0xffff_ffff) {
        Some(n) => Some(n as u32),
        None => None,
    }
}

/// The number that `s` writes: an optional sign and digits.
pub fn parse_i64(s: &str) -> (n: Option<i64>)
    ensures
        match n {
            Some(n) => parsed_i64(s@) == Some(n as int),
            None => parsed_i64(s@) is None,
        },
{
    let chars = chars_of(s);
    if chars.len() > 0 && chars[0] == '-' {
        match parse_digits(chars.as_slice(), 1, 0x8000_0000_0000_0000) {
            Some(n) => {
                if n == 0x8000_0000_0000_0000 {
                    Some(i64::MIN)
                } else {
                    Some(-(n as i64))
                }
            },
            None => None,
        }
    } else {
        match parse_unsigned(s, 0x7fff_ffff_ffff_ffff) {
            Some(n) => Some(n as i64),
            None => None,
        }
    }
}

/// What decimal writes is all digits, and stands for the number written.
pub proof fn decimal_reads_back(n: nat)
    ensures
        all_digits(decimal(n)),
        digits_value(decimal(n)) == n,
    decreases n,
{
    if n >= 10 {
        decimal_reads_back(n / 10);
        assert(decimal(n).drop_last() =~= decimal(n / 10));
    } else {
        assert(decimal(n).drop_last() =~= Seq::<char>::empty());
        assert(digits_value(decimal(n).drop_last()) == 0);
    }
}

/// A number written in decimal is parsed back to that number.
pub proof fn parse_reads_decimal_back(n: nat, max: nat)
    requires
        n <= max,
    ensures
        parsed_unsigned(decimal(n), max) == Some(n),
{
    decimal_reads_back(n);
    assert(is_digit(decimal(n)[0]));
}

/// A 64-bit number written in decimal is parsed back to that number.
pub proof fn parse_reads_signed_decimal_back(n: int)
    requires
        i64::MIN <= n <= i64::MAX,
    ensures
        parsed_i64(signed_decimal(n)) == Some(n),
{
    if n < 0 {
        decimal_reads_back((-n) as nat);
        assert(signed_decimal(n).skip(1) =~= decimal((-n) as nat));
    } else {
        parse_reads_decimal_back(n as nat, 0x7fff_ffff_ffff_ffff);
        decimal_reads_back(n as nat);
        assert(is_digit(decimal(n as nat)[0]));
    }
}

/// A number is written without leading zeros.
pub proof fn decimal_has_no_leading_zero(n: nat)
    ensures
        n > 0 ==> decimal(n)[0] != '0',
        n == 0 ==> decimal(n) == seq!['0'],
    decreases n,
{
    if n >= 10 {
        decimal_has_no_leading_zero(n / 10);
        decimal_reads_back(n / 10);
    }
}

/// What is parsed is what the digits stand for, and nothing but an optional plus sign
/// and digits is parsed.
pub proof fn unsigned_is_digits(digits: Seq<char>, max: nat)
    requires
        all_digits(digits),
        digits_value(digits) <= max,
    ensures
        parsed_unsigned(digits, max) == Some(digits_value(digits)),
        parsed_unsigned(seq!['+'] + digits, max) == Some(digits_value(digits)),
{
    assert(is_digit(digits[0]));
    assert((seq!['+'] + digits).skip(1) =~= digits);
}

/// A number over the limit is refused, and so is a text without digits.
pub proof fn unsigned_is_bounded(s: Seq<char>, max: nat)
    ensures
        parsed_unsigned(s, max) matches Some(n) ==> n <= max,
        !(exists|i: int| 0 <= i < s.len() && is_digit(#[trigger] s[i])) ==> parsed_unsigned(
            s,
            max,
        ) is None,
{
    if parsed_unsigned(s, max) is Some {
        if s[0] == '+' {
            assert(is_digit(s.skip(1)[0]));
            assert(is_digit(s[1]));
        } else {
            assert(is_digit(s[0]));
        }
    }
}

/// A number stands for itself in a URL.
pub proof fn decimal_is_kept_in_urls(n: nat)
    ensures
        crate::encode::url_text(decimal(n)) == decimal(n),
{
    decimal_reads_back(n);
    let s = decimal(n);
    assert forall|i: int| 0 <= i < s.len() implies (s[i] as int) < 128 by {
        assert(is_digit(s[i]));
    }
    assert(vstd::utf8::is_ascii_chars(s));
    vstd::utf8::is_ascii_chars_encode_utf8(s);
    let bytes = vstd::utf8::encode_utf8(s);
    assert forall|i: int| 0 <= i < bytes.len() implies crate::encode::unreserved(
        #[trigger] bytes[i],
    ) by {
        assert(is_digit(s[i]));
        assert(bytes[i] == s[i] as u8);
    }
    crate::encode::plain_text_is_kept(bytes);
    assert(crate::encode::url_text(s) =~= s);
}

} // verus!

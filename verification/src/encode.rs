//! Hexadecimal and URL encodings.
use vstd::prelude::*;
use vstd::string::*;
use vstd::utf8::*;

verus! {

// ── Hexadecimal ───────────────────────────────────────────────────────────────

/// The lower-case character of a hexadecimal digit.
pub open spec fn hex_digit(d: nat) -> char {
    if d < 10 {
        (48 + d) as char
    } else {
        (87 + d) as char
    }
}

/// Two lower-case hexadecimal digits for each byte.
pub open spec fn hex_text(bytes: Seq<u8>) -> Seq<char>
    decreases bytes.len(),
{
    if bytes.len() == 0 {
        Seq::empty()
    } else {
        hex_text(bytes.drop_last()).push(hex_digit((bytes.last() / 16) as nat)).push(
            hex_digit((bytes.last() % 16) as nat),
        )
    }
}

/// The lower-case character of a hexadecimal digit.
fn hex_char(d: u8) -> (c: char)
    requires
        d < 16,
    ensures
        c == hex_digit(d as nat),
{
    if d < 10 {
        (48 + d) as char
    } else {
        (87 + d) as char
    }
}

/// Two lower-case hexadecimal digits for each byte.
pub fn hex(bytes: &[u8]) -> (text: String)
    ensures
        text@ == hex_text(bytes@),
{
    let mut text = String::new();
    let mut i: usize = 0;
    assert(bytes@.take(0) =~= Seq::<u8>::empty());
    while i < bytes.len()
        invariant
            i <= bytes@.len(),
            text@ == hex_text(bytes@.take(i as int)),
        decreases bytes@.len() - i,
    {
        let b: u8 = bytes[i];
        text.push(hex_char(b / 16));
        text.push(hex_char(b % 16));
        assert(bytes@.take(i + 1).drop_last() =~= bytes@.take(i as int));
        i += 1;
    }
    assert(bytes@.take(bytes@.len() as int) =~= bytes@);
    text
}

/// Each byte gives two digits, and different bytes give different digits.
pub proof fn hex_text_is_faithful(a: Seq<u8>, b: Seq<u8>)
    ensures
        hex_text(a).len() == 2 * a.len(),
        hex_text(a) == hex_text(b) ==> a == b,
    decreases a.len() + b.len(),
{
    if a.len() > 0 {
        hex_text_is_faithful(a.drop_last(), Seq::empty());
    }
    if b.len() > 0 {
        hex_text_is_faithful(b.drop_last(), Seq::empty());
    }
    if hex_text(a) == hex_text(b) {
        if a.len() > 0 && b.len() > 0 {
            let ha = hex_text(a);
            let hb = hex_text(b);
            hex_text_is_faithful(a.drop_last(), b.drop_last());
            assert(ha.drop_last().drop_last() =~= hex_text(a.drop_last()));
            assert(hb.drop_last().drop_last() =~= hex_text(b.drop_last()));
            assert(ha[ha.len() - 1] == hb[hb.len() - 1]);
            assert(ha[ha.len() - 2] == hb[hb.len() - 2]);
            assert(a.last() == b.last());
            assert(a =~= a.drop_last().push(a.last()));
            assert(b =~= b.drop_last().push(b.last()));
        } else {
            assert(hex_text(a).len() == 2 * a.len() && hex_text(b).len() == 2 * b.len());
            assert(a =~= b);
        }
    }
}

// ── URL encoding ──────────────────────────────────────────────────────────────

/// A byte that stands for itself in a URL: a letter, a digit, `-`, `_`, `.` or `~`.
pub open spec fn unreserved(b: u8) -> bool {
    ||| 0x41 <= b <= 0x5a
    ||| 0x61 <= b <= 0x7a
    ||| 0x30 <= b <= 0x39
    ||| b == 0x2d
    ||| b == 0x5f
    ||| b == 0x2e
    ||| b == 0x7e
}

/// The upper-case character of a hexadecimal digit.
pub open spec fn upper_hex_digit(d: nat) -> char {
    if d < 10 {
        (48 + d) as char
    } else {
        (55 + d) as char
    }
}

/// One byte in a URL: itself, or a percent sign and two hexadecimal digits.
pub open spec fn percent_byte(b: u8) -> Seq<char> {
    if unreserved(b) {
        seq![b as char]
    } else {
        seq!['%', upper_hex_digit((b / 16) as nat), upper_hex_digit((b % 16) as nat)]
    }
}

/// The bytes in a URL, one after the other.
pub open spec fn percent_text(bytes: Seq<u8>) -> Seq<char>
    decreases bytes.len(),
{
    if bytes.len() == 0 {
        Seq::empty()
    } else {
        percent_byte(bytes.first()) + percent_text(bytes.drop_first())
    }
}

/// The text in a URL: its UTF-8 bytes, each encoded.
pub open spec fn url_text(s: Seq<char>) -> Seq<char> {
    percent_text(encode_utf8(s))
}

/// The upper-case character of a hexadecimal digit.
fn upper_hex_char(d: u8) -> (c: char)
    requires
        d < 16,
    ensures
        c == upper_hex_digit(d as nat),
{
    if d < 10 {
        (48 + d) as char
    } else {
        (55 + d) as char
    }
}

/// The text in a URL: its UTF-8 bytes, each encoded.
pub fn url_encode(s: &str) -> (out: String)
    ensures
        out@ == url_text(s@),
{
    let bytes = s.as_bytes();
    let mut out = String::new();
    let mut i: usize = 0;
    assert(bytes@.skip(0) =~= bytes@);
    assert(out@ + percent_text(bytes@) =~= percent_text(bytes@));
    while i < bytes.len()
        invariant
            i <= bytes@.len(),
            out@ + percent_text(bytes@.skip(i as int)) == percent_text(bytes@),
        decreases bytes@.len() - i,
    {
        let ghost before = out@;
        let ghost rest = bytes@.skip(i as int);
        let b: u8 = bytes[i];
        if (0x41 <= b && b <= 0x5a) || (0x61 <= b && b <= 0x7a) || (0x30 <= b && b <= 0x39) || b
            == 0x2d || b == 0x5f || b == 0x2e || b == 0x7e {
            out.push(b as char);
        } else {
            out.push('%');
            out.push(upper_hex_char(b / 16));
            out.push(upper_hex_char(b % 16));
        }
        assert(out@ =~= before + percent_byte(b));
        assert(rest.drop_first() =~= bytes@.skip(i + 1));
        assert(out@ + percent_text(bytes@.skip(i + 1)) =~= before + percent_text(rest));
        i += 1;
    }
    assert(bytes@.skip(bytes@.len() as int) =~= Seq::<u8>::empty());
    assert(out@ + Seq::<char>::empty() =~= out@);
    out
}

/// The number that an upper-case hexadecimal digit stands for.
pub open spec fn upper_hex_value(c: char) -> int {
    if c <= '9' {
        c as int - 48
    } else {
        c as int - 55
    }
}

/// The bytes that a URL-encoded text stands for.
pub open spec fn percent_decoded(s: Seq<char>) -> Seq<u8>
    decreases s.len(),
{
    if s.len() == 0 {
        Seq::empty()
    } else if s[0] == '%' && s.len() >= 3 {
        seq![(upper_hex_value(s[1]) * 16 + upper_hex_value(s[2])) as u8] + percent_decoded(s.skip(3))
    } else {
        seq![s[0] as u8] + percent_decoded(s.skip(1))
    }
}

/// URL decoding gives back the bytes that were encoded.
pub proof fn percent_decodes_back(bytes: Seq<u8>)
    ensures
        percent_decoded(percent_text(bytes)) == bytes,
    decreases bytes.len(),
{
    let s = percent_text(bytes);
    if bytes.len() > 0 {
        let b = bytes.first();
        let rest = bytes.drop_first();
        percent_decodes_back(rest);
        if unreserved(b) {
            assert(s[0] == b as char);
            assert(s.skip(1) =~= percent_text(rest));
        } else {
            assert(s[0] == '%');
            assert(s.skip(3) =~= percent_text(rest));
            assert(upper_hex_value(s[1]) == b / 16);
            assert(upper_hex_value(s[2]) == b % 16);
        }
        assert(percent_decoded(s) =~= seq![b] + rest);
        assert(seq![b] + rest =~= bytes);
    } else {
        assert(percent_decoded(s) =~= bytes);
    }
}

/// Different texts are different in a URL.
pub proof fn url_text_is_faithful(a: Seq<char>, b: Seq<char>)
    ensures
        url_text(a) == url_text(b) ==> a == b,
{
    percent_decodes_back(encode_utf8(a));
    percent_decodes_back(encode_utf8(b));
    encode_utf8_decode_utf8(a);
    encode_utf8_decode_utf8(b);
}

/// A character that URL encoding writes: an unreserved one, or a percent sign.
pub open spec fn url_char(c: char) -> bool {
    c == '%' || (c as int <= 0x7e && unreserved(c as u8))
}

/// An encoded text holds unreserved characters and percent signs alone, so none
/// that separates the parameters of a form.
pub proof fn url_text_is_safe(s: Seq<char>)
    ensures
        forall|i: int| 0 <= i < url_text(s).len() ==> url_char(#[trigger] url_text(s)[i]),
        !url_text(s).contains('&'),
        !url_text(s).contains('='),
{
    percent_text_is_safe(encode_utf8(s));
}

/// What `percent_text` writes for the bytes is made of URL characters.
proof fn percent_text_is_safe(bytes: Seq<u8>)
    ensures
        forall|i: int| 0 <= i < percent_text(bytes).len() ==> url_char(#[trigger] percent_text(bytes)[i]),
    decreases bytes.len(),
{
    if bytes.len() > 0 {
        let head = percent_byte(bytes.first());
        let tail = percent_text(bytes.drop_first());
        percent_text_is_safe(bytes.drop_first());
        assert forall|i: int| 0 <= i < percent_text(bytes).len() implies url_char(
            #[trigger] percent_text(bytes)[i],
        ) by {
            if i < head.len() {
                assert(percent_text(bytes)[i] == head[i]);
            } else {
                assert(percent_text(bytes)[i] == tail[i - head.len()]);
            }
        }
    }
}

/// The number that a lower-case hexadecimal digit stands for.
pub open spec fn hex_value(c: char) -> int {
    if '0' <= c <= '9' {
        c as int - '0' as int
    } else {
        c as int - 'a' as int + 10
    }
}

/// Each byte is written as two lower-case hexadecimal digits, the higher one first.
pub proof fn hex_digits_read_back(bytes: Seq<u8>, i: int)
    requires
        0 <= i < bytes.len(),
    ensures
        hex_text(bytes).len() == 2 * bytes.len(),
        ({
            let (high, low) = (hex_text(bytes)[2 * i], hex_text(bytes)[2 * i + 1]);
            &&& '0' <= high <= '9' || 'a' <= high <= 'f'
            &&& '0' <= low <= '9' || 'a' <= low <= 'f'
            &&& hex_value(high) * 16 + hex_value(low) == bytes[i]
        }),
    decreases bytes.len(),
{
    hex_text_is_faithful(bytes, bytes);
    let init = bytes.drop_last();
    hex_text_is_faithful(init, init);
    if i < init.len() {
        hex_digits_read_back(init, i);
        assert(hex_text(bytes)[2 * i] == hex_text(init)[2 * i]);
        assert(hex_text(bytes)[2 * i + 1] == hex_text(init)[2 * i + 1]);
    }
}

/// A text of unreserved characters stands for itself in a URL.
pub proof fn plain_text_is_kept(bytes: Seq<u8>)
    requires
        forall|i: int| 0 <= i < bytes.len() ==> unreserved(#[trigger] bytes[i]),
    ensures
        percent_text(bytes) == Seq::new(bytes.len(), |i: int| bytes[i] as char),
    decreases bytes.len(),
{
    if bytes.len() > 0 {
        let rest = bytes.drop_first();
        assert forall|i: int| 0 <= i < rest.len() implies unreserved(#[trigger] rest[i]) by {
            assert(rest[i] == bytes[i + 1]);
        }
        plain_text_is_kept(rest);
        assert(unreserved(bytes[0]));
    }
    assert(percent_text(bytes) =~= Seq::new(bytes.len(), |i: int| bytes[i] as char));
}

/// One encoding after the other is the encoding of both.
pub proof fn percent_text_distributes(a: Seq<u8>, b: Seq<u8>)
    ensures
        percent_text(a + b) == percent_text(a) + percent_text(b),
    decreases a.len(),
{
    if a.len() > 0 {
        percent_text_distributes(a.drop_first(), b);
        assert((a + b).first() == a.first());
        assert((a + b).drop_first() =~= a.drop_first() + b);
        assert(percent_text(a + b) =~= percent_text(a) + percent_text(b));
    } else {
        assert(a + b =~= b);
        assert(percent_text(a) + percent_text(b) =~= percent_text(b));
    }
}

} // verus!

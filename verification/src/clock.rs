//! The time at which requests are signed.
//!
//! The host gives the plugin no clock. The time comes from the `Date` header that
//! the regional STS endpoint puts in its reply to an unsigned HEAD request.
use crate::aws_sign;
use crate::number;
use crate::number::{parse_u32, push_padded};
use crate::split;
use crate::split::{split, words, Separator};
use crate::text;
use crate::text::same_text;
use crate::transport;
use crate::transport::{HttpReply, HttpRequest};
use vstd::prelude::*;
use vstd::string::*;
use vstd::utf8::*;

verus! {

/// The timestamp used where no time could be read: one that the service refuses
/// as expired.
pub open spec fn epoch() -> Seq<char> {
    "19700101T000000Z"@
}

/// The number of a month, by its English abbreviation.
pub open spec fn month_number(name: Seq<char>) -> Option<nat> {
    if name == "Jan"@ {
        Some(1)
    } else if name == "Feb"@ {
        Some(2)
    } else if name == "Mar"@ {
        Some(3)
    } else if name == "Apr"@ {
        Some(4)
    } else if name == "May"@ {
        Some(5)
    } else if name == "Jun"@ {
        Some(6)
    } else if name == "Jul"@ {
        Some(7)
    } else if name == "Aug"@ {
        Some(8)
    } else if name == "Sep"@ {
        Some(9)
    } else if name == "Oct"@ {
        Some(10)
    } else if name == "Nov"@ {
        Some(11)
    } else if name == "Dec"@ {
        Some(12)
    } else {
        None
    }
}

/// A 32-bit number.
pub open spec fn field(s: Seq<char>) -> Option<nat> {
    number::parsed_unsigned(s, u32::MAX as nat)
}

/// `YYYYMMDDTHHmmSSZ`.
pub open spec fn compact(
    year: nat,
    month: nat,
    day: nat,
    hour: nat,
    minute: nat,
    second: nat,
) -> Seq<char> {
    number::padded(year, 4) + number::padded(month, 2) + number::padded(day, 2) + "T"@
        + number::padded(hour, 2) + number::padded(minute, 2) + number::padded(second, 2) + "Z"@
}

/// The timestamp for an HTTP `Date` such as `Tue, 12 Aug 2026 13:47:12 GMT`: its
/// second to fifth word are the day, the month, the year and the time.
pub open spec fn timestamp(date: Seq<char>) -> Option<Seq<char>> {
    let word = split::words_in(date);
    let time = split::parts(word[4], Separator::Char(':'));
    if word.len() < 5 || time.len() != 3 {
        None
    } else {
        match (
            field(word[1]),
            month_number(word[2]),
            field(word[3]),
            field(time[0]),
            field(time[1]),
            field(time[2]),
        ) {
            (Some(day), Some(month), Some(year), Some(hour), Some(minute), Some(second)) => Some(
                compact(year, month, day, hour, minute, second),
            ),
            _ => None,
        }
    }
}

/// The number of a month, by its English abbreviation.
fn month(name: &str) -> (n: Option<u32>)
    ensures
        match n {
            Some(n) => month_number(name@) == Some(n as nat),
            None => month_number(name@) is None,
        },
{
    if same_text(name, "Jan") {
        Some(1)
    } else if same_text(name, "Feb") {
        Some(2)
    } else if same_text(name, "Mar") {
        Some(3)
    } else if same_text(name, "Apr") {
        Some(4)
    } else if same_text(name, "May") {
        Some(5)
    } else if same_text(name, "Jun") {
        Some(6)
    } else if same_text(name, "Jul") {
        Some(7)
    } else if same_text(name, "Aug") {
        Some(8)
    } else if same_text(name, "Sep") {
        Some(9)
    } else if same_text(name, "Oct") {
        Some(10)
    } else if same_text(name, "Nov") {
        Some(11)
    } else if same_text(name, "Dec") {
        Some(12)
    } else {
        None
    }
}

/// The Sig V4 timestamp for an RFC 7231 HTTP `Date` header.
///
/// `"Tue, 12 Aug 2026 13:47:12 GMT"` gives `"20260812T134712Z"`.
pub fn parse_http_date(date: &str) -> (stamp: Option<String>)
    ensures
        text::opt_text(stamp) == timestamp(date@),
{
    let word = words(date);
    if word.len() < 5 {
        assert(split::words_in(date@).len() < 5);
        return None;
    }
    let ghost w = split::words_in(date@);
    assert(w[1] == word@[1]@ && w[2] == word@[2]@ && w[3] == word@[3]@ && w[4] == word@[4]@);
    let time = split(word[4].as_str(), Separator::Char(':'));
    let ghost t = split::parts(w[4], Separator::Char(':'));
    assert(t.len() == time@.len());
    if time.len() != 3 {
        return None;
    }
    assert(t[0] == time@[0]@ && t[1] == time@[1]@ && t[2] == time@[2]@);
    match (
        parse_u32(word[1].as_str()),
        month(word[2].as_str()),
        parse_u32(word[3].as_str()),
        parse_u32(time[0].as_str()),
        parse_u32(time[1].as_str()),
        parse_u32(time[2].as_str()),
    ) {
        (Some(day), Some(month), Some(year), Some(hour), Some(minute), Some(second)) => {
            let mut stamp = String::new();
            push_padded(&mut stamp, year, 4);
            assert(stamp@ =~= number::padded(year as nat, 4));
            push_padded(&mut stamp, month, 2);
            push_padded(&mut stamp, day, 2);
            stamp.append("T");
            push_padded(&mut stamp, hour, 2);
            push_padded(&mut stamp, minute, 2);
            push_padded(&mut stamp, second, 2);
            stamp.append("Z");
            Some(stamp)
        },
        _ => None,
    }
}

/// The request that asks for the time.
pub open spec fn clock_call(region: Seq<char>) -> transport::HttpRequestView {
    let host = "sts."@ + region + ".amazonaws.com"@;
    transport::HttpRequestView {
        method: "HEAD"@,
        url: "https://"@ + host + "/"@,
        headers: seq![("Host"@, host)],
        body: None,
    }
}

/// The request that asks for the time.
pub fn clock_request(region: &str) -> (req: HttpRequest)
    ensures
        req@ == clock_call(region@),
{
    let host = "sts.".to_owned().concat(region).concat(".amazonaws.com");
    let url = "https://".to_owned().concat(host.as_str()).concat("/");
    let req = HttpRequest::new("HEAD", url.as_str()).with_header("Host", host.as_str());
    assert(req@ =~= clock_call(region@));
    req
}

/// The timestamp that a reply to [`clock_request`] gives.
pub open spec fn time_in(reply: Result<HttpReply, String>) -> Seq<char> {
    match reply {
        Ok(HttpReply { date: Some(date), .. }) => match timestamp(date@) {
            Some(stamp) => stamp,
            None => epoch(),
        },
        _ => epoch(),
    }
}

/// UTC time in the `YYYYMMDDTHHmmSSZ` format of AWS Sig V4, out of the reply to
/// [`clock_request`]. Without a time to be read it is one that the service refuses
/// as expired. Every result can be signed with.
pub fn utc_now_iso8601(reply: &Result<HttpReply, String>) -> (stamp: String)
    ensures
        stamp@ == time_in(*reply),
        aws_sign::dated(stamp@),
{
    proof {
        reveal_strlit("19700101T000000Z");
        aws_sign::ascii_timestamp_is_dated(epoch());
    }
    if let Ok(reply) = reply {
        if let Some(date) = &reply.date {
            if let Some(stamp) = parse_http_date(date.as_str()) {
                proof {
                    timestamp_is_dated(date@);
                }
                return stamp;
            }
        }
    }
    "19700101T000000Z".to_owned()
}

// ── Laws ──────────────────────────────────────────────────────────────────────

/// A padded number is made of digits, `width` of them at least, and of no more
/// where the number needs no more.
pub proof fn padded_is_digits(n: nat, width: nat)
    requires
        width > 0,
    ensures
        number::all_digits(number::padded(n, width)),
        number::padded(n, width).len() >= width,
        number::decimal(n).len() <= width ==> number::padded(n, width).len() == width,
        number::digits_value(number::padded(n, width)) == n,
    decreases width,
{
    let digits = number::decimal(n);
    number::decimal_reads_back(n);
    if digits.len() < width {
        let zeros = Seq::new((width - digits.len()) as nat, |i: int| '0');
        zeros_add_nothing(zeros.len(), digits);
    }
}

/// Leading zeros do not change a number.
proof fn zeros_add_nothing(count: nat, digits: Seq<char>)
    ensures
        number::digits_value(Seq::new(count, |i: int| '0') + digits) == number::digits_value(
            digits,
        ),
    decreases digits.len(), count,
{
    let zeros = Seq::new(count, |i: int| '0');
    let s = zeros + digits;
    if digits.len() > 0 {
        zeros_add_nothing(count, digits.drop_last());
        assert(s.drop_last() =~= zeros + digits.drop_last());
    } else if count > 0 {
        let fewer = Seq::new((count - 1) as nat, |i: int| '0');
        zeros_add_nothing((count - 1) as nat, digits);
        assert(s.drop_last() =~= fewer + digits);
    } else {
        assert(s =~= digits);
    }
}

/// A timestamp read from any `Date` header begins with a date.
pub proof fn timestamp_is_dated(date: Seq<char>)
    ensures
        timestamp(date) matches Some(stamp) ==> aws_sign::dated(stamp),
{
    if let Some(stamp) = timestamp(date) {
        let word = split::words_in(date);
        let time = split::parts(word[4], Separator::Char(':'));
        padded_is_digits(field(word[1])->0, 2);
        padded_is_digits(month_number(word[2])->0, 2);
        padded_is_digits(field(word[3])->0, 4);
        padded_is_digits(field(time[0])->0, 2);
        padded_is_digits(field(time[1])->0, 2);
        padded_is_digits(field(time[2])->0, 2);
        reveal_strlit("T");
        reveal_strlit("Z");
        assert(is_ascii_chars(stamp));
        aws_sign::ascii_timestamp_is_dated(stamp);
    }
}

/// The English abbreviation of a month.
pub open spec fn month_name(n: nat) -> Seq<char> {
    if n == 1 {
        "Jan"@
    } else if n == 2 {
        "Feb"@
    } else if n == 3 {
        "Mar"@
    } else if n == 4 {
        "Apr"@
    } else if n == 5 {
        "May"@
    } else if n == 6 {
        "Jun"@
    } else if n == 7 {
        "Jul"@
    } else if n == 8 {
        "Aug"@
    } else if n == 9 {
        "Sep"@
    } else if n == 10 {
        "Oct"@
    } else if n == 11 {
        "Nov"@
    } else {
        "Dec"@
    }
}

/// Months are told apart by their abbreviations, which are words.
proof fn month_names_read_back(n: nat)
    requires
        1 <= n <= 12,
    ensures
        month_number(month_name(n)) == Some(n),
        month_name(n).len() > 0,
        split::unseparated(month_name(n), Separator::WhiteSpace),
{
    reveal_strlit("Jan");
    reveal_strlit("Feb");
    reveal_strlit("Mar");
    reveal_strlit("Apr");
    reveal_strlit("May");
    reveal_strlit("Jun");
    reveal_strlit("Jul");
    reveal_strlit("Aug");
    reveal_strlit("Sep");
    reveal_strlit("Oct");
    reveal_strlit("Nov");
    reveal_strlit("Dec");
    let name = month_name(n);
    assert(name.len() == 3);
    let (a, b, c) = (name[0], name[1], name[2]);
    assert(a == 'J' ==> b == 'a' || c == 'n' || c == 'l');
    if month_number(name) != Some(n) {
        assert("Jan"@[0] == 'J' && "Jan"@[1] == 'a');
        assert("Feb"@[0] == 'F');
        assert("Mar"@[0] == 'M' && "Mar"@[2] == 'r');
        assert("Apr"@[0] == 'A' && "Apr"@[1] == 'p');
        assert("May"@[0] == 'M' && "May"@[2] == 'y');
        assert("Jun"@[0] == 'J' && "Jun"@[1] == 'u' && "Jun"@[2] == 'n');
        assert("Jul"@[0] == 'J' && "Jul"@[1] == 'u' && "Jul"@[2] == 'l');
        assert("Aug"@[0] == 'A' && "Aug"@[1] == 'u');
        assert("Sep"@[0] == 'S');
        assert("Oct"@[0] == 'O');
        assert("Nov"@[0] == 'N');
        assert("Dec"@[0] == 'D');
    }
}

/// A date and time as an HTTP `Date` header writes it.
pub open spec fn http_date(
    weekday: Seq<char>,
    day: nat,
    month: nat,
    year: nat,
    hour: nat,
    minute: nat,
    second: nat,
    zone: Seq<char>,
) -> Seq<char> {
    weekday.push(' ') + number::padded(day, 2).push(' ') + month_name(month).push(' ')
        + number::padded(year, 4).push(' ') + number::padded(hour, 2).push(':') + number::padded(
        minute,
        2,
    ).push(':') + number::padded(second, 2).push(' ') + zone
}

/// A padded 32-bit number is read back, and is a word without a colon.
proof fn field_reads_back(n: nat, width: nat)
    requires
        n <= u32::MAX,
        width > 0,
    ensures
        field(number::padded(n, width)) == Some(n),
        number::padded(n, width).len() > 0,
        split::unseparated(number::padded(n, width), Separator::WhiteSpace),
        split::unseparated(number::padded(n, width), Separator::Char(':')),
{
    padded_is_digits(n, width);
    assert(number::is_digit(number::padded(n, width)[0]));
}

/// Every date and time that an HTTP `Date` header writes is read as its compact
/// timestamp.
pub proof fn http_date_is_read(
    weekday: Seq<char>,
    day: nat,
    month: nat,
    year: nat,
    hour: nat,
    minute: nat,
    second: nat,
    zone: Seq<char>,
)
    requires
        weekday.len() > 0 && split::unseparated(weekday, Separator::WhiteSpace),
        zone.len() > 0 && split::unseparated(zone, Separator::WhiteSpace),
        1 <= month <= 12,
        day <= u32::MAX && year <= u32::MAX,
        hour <= u32::MAX && minute <= u32::MAX && second <= u32::MAX,
    ensures
        timestamp(http_date(weekday, day, month, year, hour, minute, second, zone)) == Some(
            compact(year, month, day, hour, minute, second),
        ),
{
    let (d, mo, y) = (number::padded(day, 2), month_name(month), number::padded(year, 4));
    let (h, m, s) = (number::padded(hour, 2), number::padded(minute, 2), number::padded(second, 2));
    field_reads_back(day, 2);
    field_reads_back(year, 4);
    field_reads_back(hour, 2);
    field_reads_back(minute, 2);
    field_reads_back(second, 2);
    month_names_read_back(month);
    let time = h.push(':') + m.push(':') + s;
    assert(split::parts(time, Separator::Char(':')) == seq![h, m, s]
        && split::unseparated(time, Separator::WhiteSpace)) by {
        three_parts(h, m, s);
    }
    let date = http_date(weekday, day, month, year, hour, minute, second, zone);
    assert(date =~= weekday.push(' ') + d.push(' ') + mo.push(' ') + y.push(' ') + time.push(' ')
        + zone) by {
        let front = weekday.push(' ') + d.push(' ') + mo.push(' ') + y.push(' ');
        assert(front + h.push(':') + m.push(':') + s.push(' ') =~= front + time.push(' '));
    }
    assert(split::words_in(date) == seq![weekday, d, mo, y, time, zone]) by {
        six_words(weekday, d, mo, y, time, zone);
    }
}

/// Three texts without a colon, with colons between them.
proof fn three_parts(a: Seq<char>, b: Seq<char>, c: Seq<char>)
    requires
        split::unseparated(a, Separator::Char(':')),
        split::unseparated(b, Separator::Char(':')),
        split::unseparated(c, Separator::Char(':')),
        split::unseparated(a, Separator::WhiteSpace),
        split::unseparated(b, Separator::WhiteSpace),
        split::unseparated(c, Separator::WhiteSpace),
    ensures
        split::parts(a.push(':') + b.push(':') + c, Separator::Char(':')) == seq![a, b, c],
        split::unseparated(a.push(':') + b.push(':') + c, Separator::WhiteSpace),
{
    let colon = Separator::Char(':');
    let all = a.push(':') + b.push(':') + c;
    split::parts_of_one(a, colon);
    split::parts_of_one(b, colon);
    split::parts_of_one(c, colon);
    split::parts_of_two(a, ':', b, colon);
    split::parts_of_two(a.push(':') + b, ':', c, colon);
    assert((a.push(':') + b).push(':') + c =~= all);
    assert(split::parts(all, colon) =~= seq![a, b, c]);
}

/// Words, with a space between them.
proof fn six_words(
    a: Seq<char>,
    b: Seq<char>,
    c: Seq<char>,
    d: Seq<char>,
    e: Seq<char>,
    f: Seq<char>,
)
    requires
        a.len() > 0 && split::unseparated(a, Separator::WhiteSpace),
        b.len() > 0 && split::unseparated(b, Separator::WhiteSpace),
        c.len() > 0 && split::unseparated(c, Separator::WhiteSpace),
        d.len() > 0 && split::unseparated(d, Separator::WhiteSpace),
        e.len() > 0 && split::unseparated(e, Separator::WhiteSpace),
        f.len() > 0 && split::unseparated(f, Separator::WhiteSpace),
    ensures
        split::words_in(
            a.push(' ') + b.push(' ') + c.push(' ') + d.push(' ') + e.push(' ') + f,
        ) == seq![a, b, c, d, e, f],
{
    let ws = Separator::WhiteSpace;
    split::parts_of_one(a, ws);
    let two = a.push(' ') + b;
    next_word(a, b, seq![a]);
    let three = two.push(' ') + c;
    next_word(two, c, seq![a].push(b));
    let four = three.push(' ') + d;
    next_word(three, d, seq![a].push(b).push(c));
    let five = four.push(' ') + e;
    next_word(four, e, seq![a].push(b).push(c).push(d));
    let six = five.push(' ') + f;
    next_word(five, f, seq![a].push(b).push(c).push(d).push(e));
    assert(two.push(' ') =~= a.push(' ') + b.push(' '));
    assert(three.push(' ') =~= two.push(' ') + c.push(' '));
    assert(four.push(' ') =~= three.push(' ') + d.push(' '));
    assert(five.push(' ') =~= four.push(' ') + e.push(' '));
    let all = seq![a].push(b).push(c).push(d).push(e).push(f);
    split::nonempty_keeps_all(all);
    assert(all =~= seq![a, b, c, d, e, f]);
}

/// One word more, after a space.
proof fn next_word(front: Seq<char>, word: Seq<char>, words: Seq<Seq<char>>)
    requires
        split::parts(front, Separator::WhiteSpace) == words,
        split::unseparated(word, Separator::WhiteSpace),
    ensures
        split::parts(front.push(' ') + word, Separator::WhiteSpace) == words.push(word),
{
    split::parts_of_one(word, Separator::WhiteSpace);
    split::parts_of_two(front, ' ', word, Separator::WhiteSpace);
    assert(words + seq![word] =~= words.push(word));
}

/// A number below a hundred takes two digits, and one below ten thousand four.
proof fn small_numbers_are_short(n: nat)
    ensures
        n < 100 ==> number::decimal(n).len() <= 2,
        n < 10000 ==> number::decimal(n).len() <= 4,
{
    reveal_with_fuel(number::decimal, 5);
}

/// A timestamp holds each number at its place: the date, a `T`, the time, a `Z`.
pub proof fn timestamp_holds_its_numbers(
    year: nat,
    month: nat,
    day: nat,
    hour: nat,
    minute: nat,
    second: nat,
)
    requires
        year < 10000,
        month < 100 && day < 100,
        hour < 100 && minute < 100 && second < 100,
    ensures
        ({
            let s = compact(year, month, day, hour, minute, second);
            &&& s.len() == 16
            &&& number::digits_value(s.subrange(0, 4)) == year
            &&& number::digits_value(s.subrange(4, 6)) == month
            &&& number::digits_value(s.subrange(6, 8)) == day
            &&& s[8] == 'T'
            &&& number::digits_value(s.subrange(9, 11)) == hour
            &&& number::digits_value(s.subrange(11, 13)) == minute
            &&& number::digits_value(s.subrange(13, 15)) == second
            &&& s[15] == 'Z'
        }),
{
    small_numbers_are_short(year);
    small_numbers_are_short(month);
    small_numbers_are_short(day);
    small_numbers_are_short(hour);
    small_numbers_are_short(minute);
    small_numbers_are_short(second);
    padded_is_digits(year, 4);
    padded_is_digits(month, 2);
    padded_is_digits(day, 2);
    padded_is_digits(hour, 2);
    padded_is_digits(minute, 2);
    padded_is_digits(second, 2);
    reveal_strlit("T");
    reveal_strlit("Z");
    let s = compact(year, month, day, hour, minute, second);
    assert(s.subrange(0, 4) =~= number::padded(year, 4));
    assert(s.subrange(4, 6) =~= number::padded(month, 2));
    assert(s.subrange(6, 8) =~= number::padded(day, 2));
    assert(s.subrange(9, 11) =~= number::padded(hour, 2));
    assert(s.subrange(11, 13) =~= number::padded(minute, 2));
    assert(s.subrange(13, 15) =~= number::padded(second, 2));
}

/// A date is read by its words, whether a zone follows them or not: one of fewer than five
/// words, of a month that there is not, or of a time that is not of three parts, is none.
pub proof fn date_is_read_by_its_words(
    date: Seq<char>,
    day: nat,
    month: nat,
    year: nat,
    hour: nat,
    minute: nat,
    second: nat,
)
    requires
        1 <= month <= 12,
        day <= u32::MAX && year <= u32::MAX,
        hour <= u32::MAX && minute <= u32::MAX && second <= u32::MAX,
    ensures
        ({
            let word = split::words_in(date);
            let time = number::padded(hour, 2).push(':') + number::padded(minute, 2).push(':')
                + number::padded(second, 2);
            &&& word.len() >= 5 && word[1] == number::padded(day, 2) && word[2] == month_name(month)
                && word[3] == number::padded(year, 4) && word[4] == time ==> timestamp(date)
                == Some(compact(year, month, day, hour, minute, second))
            &&& word.len() < 5 ==> timestamp(date) is None
            &&& word.len() >= 5 && (forall|n: nat| 1 <= n <= 12 ==> word[2] != #[trigger] month_name(n))
                ==> timestamp(date) is None
            &&& word.len() >= 5 && split::parts(word[4], Separator::Char(':')).len() != 3
                ==> timestamp(date) is None
        }),
{
    field_reads_back(day, 2);
    field_reads_back(year, 4);
    field_reads_back(hour, 2);
    field_reads_back(minute, 2);
    field_reads_back(second, 2);
    month_names_read_back(month);
    three_parts(number::padded(hour, 2), number::padded(minute, 2), number::padded(second, 2));
    let word = split::words_in(date);
    if word.len() >= 5 && month_number(word[2]) is Some {
        let n = month_number(word[2])->0;
        assert(1 <= n <= 12 && word[2] == month_name(n));
    }
}

/// The time is asked of the region's own host, without a signature or a body. It is that of
/// the reply's date, where that can be read, and long past otherwise.
pub proof fn time_is_that_of_the_reply(
    region: Seq<char>,
    reply: HttpReply,
    date: String,
    e: String,
)
    requires
        reply.date == Some(date),
    ensures
        ({
            let req = clock_call(region);
            let host = "sts."@ + region + ".amazonaws.com"@;
            &&& req.method == "HEAD"@ && req.url == "https://"@ + host + "/"@
            &&& req.headers == seq![("Host"@, host)] && req.body is None
        }),
        timestamp(date@) matches Some(stamp) ==> time_in(Ok(reply)) == stamp,
        timestamp(date@) is None ==> time_in(Ok(reply)) == "19700101T000000Z"@,
        time_in(Err(e)) == "19700101T000000Z"@,
{
}

} // verus!

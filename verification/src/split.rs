//! Splitting text at separators, and trimming white space.
use crate::text;
use crate::text::{chars_of, string_of};
use vstd::prelude::*;

verus! {

broadcast use crate::text::texts_push;

/// The Unicode White_Space property.
pub open spec fn white_space(c: char) -> bool {
    ||| '\u{9}' <= c <= '\u{d}'
    ||| c == ' '
    ||| c == '\u{85}'
    ||| c == '\u{a0}'
    ||| c == '\u{1680}'
    ||| '\u{2000}' <= c <= '\u{200a}'
    ||| c == '\u{2028}'
    ||| c == '\u{2029}'
    ||| c == '\u{202f}'
    ||| c == '\u{205f}'
    ||| c == '\u{3000}'
}

/// Whether a character has the Unicode White_Space property.
pub fn is_white_space(c: char) -> (is: bool)
    ensures
        is == white_space(c),
{
    ('\u{9}' <= c && c <= '\u{d}') || c == ' ' || c == '\u{85}' || c == '\u{a0}' || c == '\u{1680}'
        || ('\u{2000}' <= c && c <= '\u{200a}') || c == '\u{2028}' || c == '\u{2029}' || c
        == '\u{202f}' || c == '\u{205f}' || c == '\u{3000}'
}

/// What parts of a text are separated by.
#[derive(Clone, Copy)]
pub enum Separator {
    /// One given character.
    Char(char),
    /// Any white space character.
    WhiteSpace,
}

/// Whether `c` is one of the separating characters.
pub open spec fn separates(sep: Separator, c: char) -> bool {
    match sep {
        Separator::Char(d) => c == d,
        Separator::WhiteSpace => white_space(c),
    }
}

/// The parts of `s` between its separators: one part more than there are
/// separators, empty where nothing stands between two of them.
pub open spec fn parts(s: Seq<char>, sep: Separator) -> Seq<Seq<char>>
    decreases s.len(),
{
    if s.len() == 0 {
        seq![Seq::<char>::empty()]
    } else {
        let before = parts(s.drop_last(), sep);
        if separates(sep, s.last()) {
            before.push(Seq::<char>::empty())
        } else {
            before.drop_last().push(before.last().push(s.last()))
        }
    }
}

/// The parts that are not empty.
pub open spec fn nonempty(parts: Seq<Seq<char>>) -> Seq<Seq<char>> {
    parts.filter(|part: Seq<char>| part.len() > 0)
}

/// The words of `s`: what stands between its white space.
pub open spec fn words_in(s: Seq<char>) -> Seq<Seq<char>> {
    nonempty(parts(s, Separator::WhiteSpace))
}

/// There is always a part.
pub broadcast proof fn parts_len(s: Seq<char>, sep: Separator)
    ensures
        #[trigger] parts(s, sep).len() >= 1,
    decreases s.len(),
{
    if s.len() > 0 {
        parts_len(s.drop_last(), sep);
    }
}

/// No character of `s` separates.
pub open spec fn unseparated(s: Seq<char>, sep: Separator) -> bool {
    forall|i: int| 0 <= i < s.len() ==> !separates(sep, #[trigger] s[i])
}

/// A text without separators is its only part.
pub proof fn parts_of_one(s: Seq<char>, sep: Separator)
    requires
        unseparated(s, sep),
    ensures
        parts(s, sep) == seq![s],
    decreases s.len(),
{
    if s.len() > 0 {
        parts_of_one(s.drop_last(), sep);
        assert(s.drop_last().push(s.last()) =~= s);
        assert(parts(s, sep) =~= seq![s]);
    } else {
        assert(s =~= Seq::<char>::empty());
    }
}

/// The parts of two texts with a separator between them are the parts of the one
/// and then those of the other.
pub proof fn parts_of_two(a: Seq<char>, c: char, b: Seq<char>, sep: Separator)
    requires
        separates(sep, c),
    ensures
        parts(a.push(c) + b, sep) == parts(a, sep) + parts(b, sep),
    decreases b.len(),
{
    let s = a.push(c) + b;
    if b.len() == 0 {
        assert(s =~= a.push(c));
        assert(s.drop_last() =~= a);
        assert(parts(s, sep) =~= parts(a, sep) + parts(b, sep));
    } else {
        parts_of_two(a, c, b.drop_last(), sep);
        parts_len(b.drop_last(), sep);
        assert(s.drop_last() =~= a.push(c) + b.drop_last());
        assert(parts(s, sep) =~= parts(a, sep) + parts(b, sep));
    }
}

/// Splitting at a character loses nothing: the parts, joined with that character,
/// are the text again, and the character is in none of them.
pub proof fn parts_join_back(s: Seq<char>, c: char)
    ensures
        text::joined(parts(s, Separator::Char(c)), seq![c]) == s,
        forall|i: int|
            0 <= i < parts(s, Separator::Char(c)).len() ==> !(#[trigger] parts(
                s,
                Separator::Char(c),
            )[i]).contains(c),
    decreases s.len(),
{
    let sep = Separator::Char(c);
    let all = parts(s, sep);
    if s.len() == 0 {
        assert(s =~= all[0]);
    } else {
        let init = s.drop_last();
        let before = parts(init, sep);
        parts_join_back(init, c);
        parts_len(init, sep);
        if s.last() == c {
            assert(all.drop_last() =~= before);
            assert(text::joined(all, seq![c]) =~= s);
        } else {
            assert(all.drop_last() =~= before.drop_last());
            assert(text::joined(all, seq![c]) =~= text::joined(before, seq![c]).push(s.last()));
            assert(init.push(s.last()) =~= s);
            assert forall|i: int| 0 <= i < all.len() implies !(#[trigger] all[i]).contains(c) by {
                if i == all.len() - 1 {
                    assert(all[i] == before[i].push(s.last()));
                    assert(!before[i].contains(c));
                    if all[i].contains(c) {
                        let k = choose|k: int| 0 <= k < all[i].len() && all[i][k] == c;
                        assert(before[i][k] == c);
                    }
                } else {
                    assert(all[i] == before[i]);
                }
            }
        }
    }
}

/// Where no part is empty, all of them are kept.
pub proof fn nonempty_keeps_all(all: Seq<Seq<char>>)
    requires
        forall|i: int| 0 <= i < all.len() ==> (#[trigger] all[i]).len() > 0,
    ensures
        nonempty(all) == all,
    decreases all.len(),
{
    reveal(Seq::filter);
    if all.len() > 0 {
        nonempty_keeps_all(all.drop_last());
        assert(all[all.len() - 1].len() > 0);
        assert(nonempty(all) =~= all);
    } else {
        assert(nonempty(all) =~= all);
    }
}

/// Whether `c` is one of the separating characters.
fn is_separator(sep: Separator, c: char) -> (is: bool)
    ensures
        is == separates(sep, c),
{
    match sep {
        Separator::Char(d) => c == d,
        Separator::WhiteSpace => is_white_space(c),
    }
}

/// The parts of `s` between its separators.
pub fn split(s: &str, sep: Separator) -> (all: Vec<String>)
    ensures
        text::texts(all@) == parts(s@, sep),
        all@.len() >= 1,
{
    let chars = chars_of(s);
    let mut done: Vec<String> = Vec::new();
    let mut current = String::new();
    let mut i: usize = 0;
    assert(text::texts(done@) =~= Seq::<Seq<char>>::empty());
    assert(text::texts(done@).push(current@) =~= parts(s@.take(0), sep));
    while i < chars.len()
        invariant
            chars@ == s@,
            i <= chars@.len(),
            text::texts(done@).push(current@) == parts(s@.take(i as int), sep),
        decreases chars@.len() - i,
    {
        let c = chars[i];
        proof {
            let next = s@.take(i + 1);
            assert(next.drop_last() =~= s@.take(i as int));
            assert(next.last() == c);
            let before = text::texts(done@);
            assert(before.push(current@).drop_last() =~= before);
        }
        if is_separator(sep, c) {
            done.push(current);
            current = String::new();
            assert(current@ =~= Seq::<char>::empty());
        } else {
            current.push(c);
        }
        i += 1;
    }
    assert(s@.take(s@.len() as int) =~= s@);
    done.push(current);
    done
}

/// The part at position `n`, where there are that many.
pub open spec fn part_at(s: Seq<char>, sep: Separator, n: int) -> Option<Seq<char>> {
    if 0 <= n < parts(s, sep).len() {
        Some(parts(s, sep)[n])
    } else {
        None
    }
}

/// The part at position `n`, where there are that many.
pub fn nth_part(s: &str, sep: Separator, n: usize) -> (part: Option<String>)
    ensures
        text::opt_text(part) == part_at(s@, sep, n as int),
{
    let all = split(s, sep);
    assert(parts(s@, sep).len() == all@.len());
    if n < all.len() {
        Some(all[n].clone())
    } else {
        None
    }
}

/// The words of `s`: what stands between its white space.
pub fn words(s: &str) -> (all: Vec<String>)
    ensures
        text::texts(all@) == words_in(s@),
{
    let every = split(s, Separator::WhiteSpace);
    let mut all: Vec<String> = Vec::new();
    let mut i: usize = 0;
    let ghost whole = text::texts(every@);
    let ghost keep = |part: Seq<char>| part.len() > 0;
    assert(text::texts(all@) =~= Seq::<Seq<char>>::empty());
    assert(whole.take(0) =~= Seq::<Seq<char>>::empty());
    reveal(Seq::filter);
    assert(whole.take(0).filter(keep) =~= Seq::<Seq<char>>::empty());
    while i < every.len()
        invariant
            whole == text::texts(every@),
            keep == (|part: Seq<char>| part.len() > 0),
            i <= every@.len(),
            text::texts(all@) == whole.take(i as int).filter(keep),
        decreases every@.len() - i,
    {
        proof {
            reveal(Seq::filter);
            assert(whole.take(i + 1).drop_last() =~= whole.take(i as int));
            assert(whole.take(i + 1).last() == every@[i as int]@);
        }
        if !every[i].as_str().is_empty() {
            all.push(every[i].clone());
        }
        i += 1;
    }
    assert(whole.take(whole.len() as int) =~= whole);
    all
}

/// `s` without the white space it begins with.
pub open spec fn trimmed_start(s: Seq<char>) -> Seq<char>
    decreases s.len(),
{
    if s.len() > 0 && white_space(s.first()) {
        trimmed_start(s.drop_first())
    } else {
        s
    }
}

/// `s` without the white space it ends with.
pub open spec fn trimmed_end(s: Seq<char>) -> Seq<char>
    decreases s.len(),
{
    if s.len() > 0 && white_space(s.last()) {
        trimmed_end(s.drop_last())
    } else {
        s
    }
}

/// `s` without the white space around it.
pub open spec fn trimmed(s: Seq<char>) -> Seq<char> {
    trimmed_end(trimmed_start(s))
}

/// `s` without the white space around it.
pub fn trim(s: &str) -> (inner: String)
    ensures
        inner@ == trimmed(s@),
{
    let chars = chars_of(s);
    let mut from: usize = 0;
    assert(s@.subrange(0, s@.len() as int) =~= s@);
    while from < chars.len() && is_white_space(chars[from])
        invariant
            chars@ == s@,
            from <= chars@.len(),
            trimmed_start(s@) == trimmed_start(s@.subrange(from as int, s@.len() as int)),
        decreases chars@.len() - from,
    {
        assert(s@.subrange(from as int, s@.len() as int).drop_first() =~= s@.subrange(
            from + 1,
            s@.len() as int,
        ));
        from += 1;
    }
    let mut to: usize = chars.len();
    while from < to && is_white_space(chars[to - 1])
        invariant
            chars@ == s@,
            from <= to <= chars@.len(),
            trimmed(s@) == trimmed_end(s@.subrange(from as int, to as int)),
        decreases to,
    {
        assert(s@.subrange(from as int, to as int).drop_last() =~= s@.subrange(
            from as int,
            to - 1,
        ));
        to -= 1;
    }
    string_of(chars.as_slice(), from, to)
}

// ── Laws of joining and trimming ──────────────────────────────────────────────

/// Joining and splitting undo each other: texts that do not hold the separator are the
/// parts of what they are joined to.
pub proof fn joined_parts_are_found(list: Seq<Seq<char>>, c: char)
    requires
        list.len() > 0,
        forall|i: int| 0 <= i < list.len() ==> !(#[trigger] list[i]).contains(c),
    ensures
        parts(text::joined(list, seq![c]), Separator::Char(c)) == list,
    decreases list.len(),
{
    let sep = Separator::Char(c);
    let last = list.last();
    assert(!list[list.len() - 1].contains(c));
    assert forall|i: int| 0 <= i < last.len() implies !separates(sep, #[trigger] last[i]) by {
        assert(last.contains(last[i]));
    }
    parts_of_one(last, sep);
    if list.len() == 1 {
        assert(list =~= seq![last]);
    } else {
        let init = list.drop_last();
        assert forall|i: int| 0 <= i < init.len() implies !(#[trigger] init[i]).contains(c) by {
            assert(init[i] == list[i]);
        }
        joined_parts_are_found(init, c);
        let front = text::joined(init, seq![c]);
        parts_of_two(front, c, last, sep);
        assert(front + seq![c] + last =~= front.push(c) + last);
        assert(init + seq![last] =~= list);
    }
}

/// One text more is joined after a separator.
pub proof fn joined_grows(list: Seq<Seq<char>>, s: Seq<char>, sep: Seq<char>)
    requires
        list.len() > 0,
    ensures
        text::joined(list.push(s), sep) == text::joined(list, sep) + sep + s,
{
    assert(list.push(s).drop_last() =~= list);
}

/// Every character is white space.
pub open spec fn blank(s: Seq<char>) -> bool {
    forall|i: int| 0 <= i < s.len() ==> white_space(#[trigger] s[i])
}

/// Trimming takes off white space around a text, all of it, and nothing else.
pub proof fn trimming_takes_the_blanks(before: Seq<char>, inner: Seq<char>, after: Seq<char>)
    requires
        blank(before),
        blank(after),
        inner.len() > 0 ==> !white_space(inner.first()) && !white_space(inner.last()),
    ensures
        trimmed(before + inner + after) == inner,
{
    start_is_trimmed(before, inner + after);
    assert(before + inner + after =~= before + (inner + after));
    if inner.len() > 0 {
        assert((inner + after).first() == inner.first());
        end_is_trimmed(inner, after);
    } else {
        assert(inner + after =~= after + inner);
        assert(after + inner =~= after);
        start_is_trimmed(after, inner);
        assert(inner =~= Seq::<char>::empty());
    }
}

/// Leading white space is taken off.
proof fn start_is_trimmed(before: Seq<char>, rest: Seq<char>)
    requires
        blank(before),
    ensures
        trimmed_start(before + rest) == trimmed_start(rest),
    decreases before.len(),
{
    let s = before + rest;
    if before.len() > 0 {
        let fewer = before.drop_first();
        assert forall|i: int| 0 <= i < fewer.len() implies white_space(#[trigger] fewer[i]) by {
            assert(fewer[i] == before[i + 1]);
        }
        start_is_trimmed(fewer, rest);
        assert(s.first() == before[0]);
        assert(s.drop_first() =~= fewer + rest);
    } else {
        assert(s =~= rest);
    }
}

/// Trailing white space is taken off.
proof fn end_is_trimmed(inner: Seq<char>, after: Seq<char>)
    requires
        blank(after),
        inner.len() > 0,
        !white_space(inner.last()),
    ensures
        trimmed_end(inner + after) == inner,
    decreases after.len(),
{
    let s = inner + after;
    if after.len() > 0 {
        let fewer = after.drop_last();
        assert forall|i: int| 0 <= i < fewer.len() implies white_space(#[trigger] fewer[i]) by {
            assert(fewer[i] == after[i]);
        }
        end_is_trimmed(inner, fewer);
        assert(s.last() == after[after.len() - 1]);
        assert(s.drop_last() =~= inner + fewer);
    } else {
        assert(s =~= inner);
    }
}

/// White space is what Unicode lists as such, by code point.
pub proof fn white_space_is_the_unicode_property(c: char)
    ensures
        white_space(c) <==> {
            let n = c as int;
            ||| 9 <= n <= 13
            ||| n == 0x20
            ||| n == 0x85
            ||| n == 0xa0
            ||| n == 0x1680
            ||| 0x2000 <= n <= 0x200a
            ||| 0x2028 <= n <= 0x2029
            ||| n == 0x202f
            ||| n == 0x205f
            ||| n == 0x3000
        },
{
}

} // verus!

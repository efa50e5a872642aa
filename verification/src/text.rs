//! Text primitives: characters, searching, joining, and views of strings.
use vstd::prelude::*;
use vstd::string::*;
use vstd::utf8::*;

verus! {

broadcast use vstd::string::group_string_axioms;

/// `String::push` appends the given character to the end of the string.
pub assume_specification[ std::string::String::push ](s: &mut std::string::String, c: char)
    ensures
        final(s)@ == old(s)@.push(c),
;

/// The characters of `s`, in order.
pub fn chars_of(s: &str) -> (chars: Vec<char>)
    ensures
        chars@ == s@,
{
    let mut chars: Vec<char> = Vec::new();
    for c in it: s.chars()
        invariant
            it.seq() == s@,
            chars@ == s@.take(it.index() as int),
    {
        chars.push(c);
        assert(chars@ =~= s@.take(it.index() + 1));
    }
    assert(s@.take(s@.len() as int) =~= s@);
    chars
}

/// The string made of `chars[from..to]`.
pub fn string_of(chars: &[char], from: usize, to: usize) -> (s: String)
    requires
        from <= to <= chars@.len(),
    ensures
        s@ == chars@.subrange(from as int, to as int),
{
    let mut s = String::new();
    let mut i: usize = from;
    while i < to
        invariant
            from <= i <= to <= chars@.len(),
            s@ == chars@.subrange(from as int, i as int),
        decreases to - i,
    {
        s.push(chars[i]);
        assert(chars@.subrange(from as int, i + 1) =~= chars@.subrange(from as int, i as int).push(
            chars@[i as int],
        ));
        i += 1;
    }
    s
}

/// Whether two texts are equal.
pub fn same_text(a: &str, b: &str) -> (same: bool)
    ensures
        same == (a@ == b@),
{
    let x = a.as_bytes();
    let y = b.as_bytes();
    proof {
        encode_utf8_decode_utf8(a@);
        encode_utf8_decode_utf8(b@);
    }
    if x.len() != y.len() {
        return false;
    }
    let mut i: usize = 0;
    while i < x.len()
        invariant
            x@ == encode_utf8(a@),
            y@ == encode_utf8(b@),
            x@.len() == y@.len(),
            i <= x@.len(),
            forall|j: int| 0 <= j < i ==> x@[j] == y@[j],
        decreases x@.len() - i,
    {
        if x[i] != y[i] {
            return false;
        }
        i += 1;
    }
    assert(x@ =~= y@);
    true
}

// ── Searching ─────────────────────────────────────────────────────────────────

/// `pat` stands in `s` at position `i`.
pub open spec fn occurs_at(s: Seq<char>, pat: Seq<char>, i: int) -> bool {
    0 <= i && i + pat.len() <= s.len() && s.subrange(i, i + pat.len()) == pat
}

/// `pat` stands somewhere in `s`.
pub open spec fn contains_text(s: Seq<char>, pat: Seq<char>) -> bool {
    exists|i: int| occurs_at(s, pat, i)
}

/// The first position, from `i` on, at which `pat` stands in `s`.
pub open spec fn find_from(s: Seq<char>, pat: Seq<char>, i: int) -> Option<int>
    decreases s.len() - i + 1,
{
    if i < 0 || i + pat.len() > s.len() {
        None
    } else if occurs_at(s, pat, i) {
        Some(i)
    } else {
        find_from(s, pat, i + 1)
    }
}

/// `find_from` gives a position where the pattern stands, with none before it,
/// and gives none only where the pattern does not stand from `i` on.
pub proof fn find_from_is_first(s: Seq<char>, pat: Seq<char>, i: int)
    requires
        0 <= i,
    ensures
        match find_from(s, pat, i) {
            Some(k) => i <= k && occurs_at(s, pat, k) && forall|j: int|
                i <= j < k ==> !occurs_at(s, pat, j),
            None => forall|j: int| i <= j ==> !occurs_at(s, pat, j),
        },
    decreases s.len() - i + 1,
{
    if i + pat.len() <= s.len() && !occurs_at(s, pat, i) {
        find_from_is_first(s, pat, i + 1);
    }
}

/// A first position, from `i` on, is what `find_from` gives.
pub proof fn find_from_unique(s: Seq<char>, pat: Seq<char>, i: int, k: int)
    requires
        0 <= i <= k,
        occurs_at(s, pat, k),
        forall|j: int| i <= j < k ==> !occurs_at(s, pat, j),
    ensures
        find_from(s, pat, i) == Some(k),
    decreases k - i,
{
    if i < k {
        find_from_unique(s, pat, i + 1, k);
    }
}

/// Whether `pat` stands in `s` at position `i`.
fn stands_at(s: &[char], pat: &[char], i: usize) -> (stands: bool)
    requires
        i + pat@.len() <= s@.len(),
    ensures
        stands == occurs_at(s@, pat@, i as int),
{
    let len: usize = s.len();
    let mut k: usize = 0;
    while k < pat.len()
        invariant
            i + pat@.len() <= s@.len(),
            s@.len() == len,
            k <= pat@.len(),
            forall|j: int| 0 <= j < k ==> s@[i + j] == pat@[j],
        decreases pat@.len() - k,
    {
        if s[i + k] != pat[k] {
            assert(s@.subrange(i as int, i + pat@.len())[k as int] != pat@[k as int]);
            return false;
        }
        k += 1;
    }
    assert(s@.subrange(i as int, i + pat@.len()) =~= pat@);
    true
}

/// The first position, from `from` on, at which `pat` stands in `s`.
pub fn find_chars(s: &[char], pat: &[char], from: usize) -> (at: Option<usize>)
    requires
        from <= s@.len(),
    ensures
        match at {
            Some(k) => find_from(s@, pat@, from as int) == Some(k as int) && from <= k && k
                + pat@.len() <= s@.len(),
            None => find_from(s@, pat@, from as int) is None,
        },
{
    let mut i: usize = from;
    if pat.len() > s.len() - from {
        return None;
    }
    let last: usize = s.len() - pat.len();
    while i <= last
        invariant
            from <= i <= last + 1,
            last + pat@.len() == s@.len(),
            find_from(s@, pat@, from as int) == find_from(s@, pat@, i as int),
        decreases last + 1 - i,
    {
        if stands_at(s, pat, i) {
            return Some(i);
        }
        if i == last {
            assert(find_from(s@, pat@, i + 1) is None);
            return None;
        }
        i += 1;
    }
    None
}

/// Whether `pat` stands somewhere in `s`.
pub fn contains(s: &str, pat: &str) -> (found: bool)
    ensures
        found == contains_text(s@, pat@),
{
    let chars = chars_of(s);
    let pattern = chars_of(pat);
    let at = find_chars(chars.as_slice(), pattern.as_slice(), 0);
    proof {
        find_from_is_first(s@, pat@, 0);
    }
    at.is_some()
}

/// Whether `s` begins with `prefix`.
pub fn starts_with(s: &str, prefix: &str) -> (starts: bool)
    ensures
        starts == prefix@.is_prefix_of(s@),
{
    let chars = chars_of(s);
    let pattern = chars_of(prefix);
    pattern.len() <= chars.len() && stands_at(chars.as_slice(), pattern.as_slice(), 0)
}

/// Whether `s` ends with `suffix`.
pub fn ends_with(s: &str, suffix: &str) -> (ends: bool)
    ensures
        ends == suffix@.is_suffix_of(s@),
{
    let chars = chars_of(s);
    let pattern = chars_of(suffix);
    pattern.len() <= chars.len() && stands_at(
        chars.as_slice(),
        pattern.as_slice(),
        chars.len() - pattern.len(),
    )
}

/// `s` without the leading `prefix`, where it begins with it.
pub open spec fn without_prefix(s: Seq<char>, prefix: Seq<char>) -> Option<Seq<char>> {
    if prefix.is_prefix_of(s) {
        Some(s.skip(prefix.len() as int))
    } else {
        None
    }
}

/// `s` without the leading `prefix`, where it begins with it.
pub fn strip_prefix(s: &str, prefix: &str) -> (rest: Option<String>)
    ensures
        opt_text(rest) == without_prefix(s@, prefix@),
{
    if starts_with(s, prefix) {
        let chars = chars_of(s);
        let pattern = chars_of(prefix);
        let rest = string_of(chars.as_slice(), pattern.len(), chars.len());
        assert(rest@ =~= s@.skip(prefix@.len() as int));
        Some(rest)
    } else {
        None
    }
}

/// `s` without any number of leading copies of `prefix`.
pub open spec fn without_prefixes(s: Seq<char>, prefix: Seq<char>) -> Seq<char>
    decreases s.len(),
{
    if prefix.len() > 0 && prefix.is_prefix_of(s) {
        without_prefixes(s.skip(prefix.len() as int), prefix)
    } else {
        s
    }
}

/// `s` without any number of leading copies of `prefix`.
pub fn strip_prefixes(s: &str, prefix: &str) -> (rest: String)
    requires
        prefix@.len() > 0,
    ensures
        rest@ == without_prefixes(s@, prefix@),
{
    let mut rest = s.to_owned();
    while starts_with(rest.as_str(), prefix)
        invariant
            prefix@.len() > 0,
            without_prefixes(rest@, prefix@) == without_prefixes(s@, prefix@),
        decreases rest@.len(),
    {
        let chars = chars_of(rest.as_str());
        let pattern = chars_of(prefix);
        let shorter = string_of(chars.as_slice(), pattern.len(), chars.len());
        assert(shorter@ =~= rest@.skip(prefix@.len() as int));
        rest = shorter;
    }
    rest
}

// ── Views of strings held in other types ──────────────────────────────────────

/// The text in an optional string.
pub open spec fn opt_text(s: Option<String>) -> Option<Seq<char>> {
    match s {
        Some(s) => Some(s@),
        None => None,
    }
}

/// The text in an optional string slice.
pub open spec fn opt_str(s: Option<&str>) -> Option<Seq<char>> {
    match s {
        Some(s) => Some(s@),
        None => None,
    }
}

/// The texts in a list of strings.
pub open spec fn texts(strings: Seq<String>) -> Seq<Seq<char>> {
    strings.map_values(|s: String| s@)
}

/// Adding a string to a list adds its text to the list's texts.
pub broadcast proof fn texts_push(strings: Seq<String>, s: String)
    ensures
        #[trigger] texts(strings.push(s)) == texts(strings).push(s@),
{
    assert(texts(strings.push(s)) =~= texts(strings).push(s@));
}

/// What a result holds: a value's view, or the text of an error.
pub open spec fn outcome<T: View>(r: Result<T, String>) -> Result<T::V, Seq<char>> {
    match r {
        Ok(v) => Ok(v@),
        Err(e) => Err(e@),
    }
}

/// What a lookup gives: a value's view, none, or the text of an error.
pub open spec fn lookup<T: View>(r: Result<Option<T>, String>) -> Result<
    Option<T::V>,
    Seq<char>,
> {
    match r {
        Ok(Some(v)) => Ok(Some(v@)),
        Ok(None) => Ok(None),
        Err(e) => Err(e@),
    }
}

/// The names and values in a list of pairs of strings.
pub open spec fn pairs(list: Seq<(String, String)>) -> Seq<(Seq<char>, Seq<char>)> {
    list.map_values(|p: (String, String)| (p.0@, p.1@))
}

/// Adding a pair to a list adds its texts to the list's pairs.
pub broadcast proof fn pairs_push(list: Seq<(String, String)>, p: (String, String))
    ensures
        #[trigger] pairs(list.push(p)) == pairs(list).push((p.0@, p.1@)),
{
    assert(pairs(list.push(p)) =~= pairs(list).push((p.0@, p.1@)));
}

// ── Joining ───────────────────────────────────────────────────────────────────

/// The texts one after the other, with `sep` between two of them.
pub open spec fn joined(list: Seq<Seq<char>>, sep: Seq<char>) -> Seq<char>
    decreases list.len(),
{
    if list.len() == 0 {
        Seq::empty()
    } else if list.len() == 1 {
        list[0]
    } else {
        joined(list.drop_last(), sep) + sep + list.last()
    }
}

/// The strings one after the other, with `sep` between two of them.
pub fn join(list: &Vec<String>, sep: &str) -> (all: String)
    ensures
        all@ == joined(texts(list@), sep@),
{
    let mut all = String::new();
    let mut i: usize = 0;
    let ghost whole = texts(list@);
    assert(joined(whole.take(0), sep@) =~= Seq::<char>::empty());
    while i < list.len()
        invariant
            i <= list@.len(),
            whole == texts(list@),
            all@ == joined(whole.take(i as int), sep@),
        decreases list@.len() - i,
    {
        proof {
            assert(whole.take(i + 1).drop_last() =~= whole.take(i as int));
            assert(whole.take(i + 1).last() == list@[i as int]@);
        }
        if i > 0 {
            all.append(sep);
        } else {
            assert(all@ + list@[0]@ =~= list@[0]@);
        }
        all.append(list[i].as_str());
        i += 1;
    }
    assert(whole.take(whole.len() as int) =~= whole);
    all
}

// ── Between two marks ─────────────────────────────────────────────────────────

/// What stands after the first `open`, up to the `close` that follows it.
pub open spec fn text_between(s: Seq<char>, open: Seq<char>, close: Seq<char>) -> Option<Seq<char>> {
    match find_from(s, open, 0) {
        None => None,
        Some(i) => match find_from(s, close, i + open.len()) {
            None => None,
            Some(j) => Some(s.subrange(i + open.len(), j)),
        },
    }
}

/// What stands after the first `open`, up to the `close` that follows it.
pub fn between(s: &str, open: &str, close: &str) -> (inner: Option<String>)
    ensures
        opt_text(inner) == text_between(s@, open@, close@),
{
    let chars = chars_of(s);
    let left = chars_of(open);
    let right = chars_of(close);
    match find_chars(chars.as_slice(), left.as_slice(), 0) {
        None => None,
        Some(i) => {
            let len: usize = chars.len();
            assert(i + left@.len() <= len);
            let start: usize = i + left.len();
            match find_chars(chars.as_slice(), right.as_slice(), start) {
                None => None,
                Some(end) => Some(string_of(chars.as_slice(), start, end)),
            }
        },
    }
}

/// A value written between two marks is read back from between them, whatever
/// stands around it: where the opening mark does not begin earlier and the closing
/// mark does not begin earlier after it.
pub proof fn between_reads_back(
    before: Seq<char>,
    open: Seq<char>,
    inner: Seq<char>,
    close: Seq<char>,
    after: Seq<char>,
)
    requires
        ({
            let s = before + open + inner + close + after;
            &&& forall|j: int| 0 <= j < before.len() ==> !occurs_at(s, open, j)
            &&& forall|j: int|
                before.len() + open.len() <= j < before.len() + open.len() + inner.len()
                    ==> !occurs_at(s, close, j)
        }),
    ensures
        text_between(before + open + inner + close + after, open, close) == Some(inner),
{
    let s = before + open + inner + close + after;
    let i = before.len() as int;
    let j = i + open.len() + inner.len();
    assert(s.subrange(i, i + open.len()) =~= open);
    assert(s.subrange(j, j + close.len()) =~= close);
    find_from_unique(s, open, 0, i);
    find_from_unique(s, close, i + open.len(), j);
    assert(s.subrange(i + open.len(), j) =~= inner);
}

/// What stands in the middle of a text stands in it.
pub proof fn middle_is_contained(before: Seq<char>, inner: Seq<char>, after: Seq<char>)
    ensures
        contains_text(before + inner + after, inner),
{
    let s = before + inner + after;
    let i = before.len() as int;
    assert(s.subrange(i, i + inner.len()) =~= inner);
    assert(occurs_at(s, inner, i));
}

/// A prefix is taken off, and what follows it is left whole; a text that does not begin
/// with it is refused.
pub proof fn prefix_is_taken_off(prefix: Seq<char>, rest: Seq<char>, other: Seq<char>)
    ensures
        without_prefix(prefix + rest, prefix) == Some(rest),
        without_prefix(other, prefix) is Some <==> other.len() >= prefix.len() && other.take(
            prefix.len() as int,
        ) == prefix,
{
    let s = prefix + rest;
    assert(s.subrange(0, prefix.len() as int) =~= prefix);
    assert(s.skip(prefix.len() as int) =~= rest);
    if other.len() >= prefix.len() {
        assert(other.take(prefix.len() as int) =~= other.subrange(0, prefix.len() as int));
    }
}

/// Leading copies are all taken off and nothing else: what is left ends the text and
/// does not begin with another copy.
pub proof fn prefixes_are_taken_off(s: Seq<char>, prefix: Seq<char>)
    requires
        prefix.len() > 0,
    ensures
        without_prefixes(prefix + s, prefix) == without_prefixes(s, prefix),
        !prefix.is_prefix_of(without_prefixes(s, prefix)),
        !prefix.is_prefix_of(s) ==> without_prefixes(s, prefix) == s,
    decreases s.len(),
{
    let longer = prefix + s;
    assert(longer.subrange(0, prefix.len() as int) =~= prefix);
    assert(longer.skip(prefix.len() as int) =~= s);
    if prefix.is_prefix_of(s) {
        prefixes_are_taken_off(s.skip(prefix.len() as int), prefix);
    }
}

/// What stands between two marks needs both: a text without the first, or without the second
/// after the first, holds nothing between them.
pub proof fn between_needs_both_marks(s: Seq<char>, open: Seq<char>, close: Seq<char>, i: int)
    requires
        0 <= i,
        forall|j: int| 0 <= j < i ==> !occurs_at(s, open, j),
    ensures
        !contains_text(s, open) ==> text_between(s, open, close) is None,
        occurs_at(s, open, i) && (forall|j: int|
            i + open.len() <= j ==> !occurs_at(s, close, j)) ==> text_between(s, open, close)
            is None,
{
    find_from_is_first(s, open, 0);
    if occurs_at(s, open, i) {
        find_from_unique(s, open, 0, i);
        find_from_is_first(s, close, i + open.len());
    }
}

} // verus!

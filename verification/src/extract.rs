//! Values out of XML and JSON replies.
use crate::split;
use crate::split::trim;
use crate::text;
use crate::text::between;
use vstd::prelude::*;
use vstd::string::*;

verus! {

/// `<tag>`.
pub open spec fn open_tag(tag: Seq<char>) -> Seq<char> {
    "<"@ + tag + ">"@
}

/// `</tag>`.
pub open spec fn close_tag(tag: Seq<char>) -> Seq<char> {
    "</"@ + tag + ">"@
}

/// The text of the first `tag` element, without the white space around it.
pub open spec fn tag_text(xml: Seq<char>, tag: Seq<char>) -> Option<Seq<char>> {
    match text::text_between(xml, open_tag(tag), close_tag(tag)) {
        Some(inner) => Some(split::trimmed(inner)),
        None => None,
    }
}

/// The text of the first `tag` element, without the white space around it.
pub fn extract_tag(xml: &str, tag: &str) -> (value: Option<String>)
    ensures
        text::opt_text(value) == tag_text(xml@, tag@),
{
    let open = "<".to_owned().concat(tag).concat(">");
    let close = "</".to_owned().concat(tag).concat(">");
    match between(xml, open.as_str(), close.as_str()) {
        Some(inner) => Some(trim(inner.as_str())),
        None => None,
    }
}

/// `"key":"`.
pub open spec fn json_mark(key: Seq<char>) -> Seq<char> {
    "\""@ + key + "\":\""@
}

/// The string value of the first `key` of a flat JSON object.
pub open spec fn json_text(json: Seq<char>, key: Seq<char>) -> Option<Seq<char>> {
    text::text_between(json, json_mark(key), "\""@)
}

/// The string value of the first `key` of a flat JSON object.
pub fn extract_json_str(json: &str, key: &str) -> (value: Option<String>)
    ensures
        text::opt_text(value) == json_text(json@, key@),
{
    let mark = "\"".to_owned().concat(key).concat("\":\"");
    between(json, mark.as_str(), "\"")
}

// ── Laws ──────────────────────────────────────────────────────────────────────

/// The text of an element, whatever stands around the element, is read back
/// without the white space around it: where no such element begins earlier and the
/// text holds no markup.
pub proof fn tag_text_reads_back(
    before: Seq<char>,
    tag: Seq<char>,
    value: Seq<char>,
    after: Seq<char>,
)
    requires
        forall|j: int|
            0 <= j < before.len() ==> !text::occurs_at(
                before + open_tag(tag) + value + close_tag(tag) + after,
                open_tag(tag),
                j,
            ),
        !value.contains('<'),
    ensures
        tag_text(before + open_tag(tag) + value + close_tag(tag) + after, tag) == Some(
            split::trimmed(value),
        ),
{
    let open = open_tag(tag);
    let close = close_tag(tag);
    let s = before + open + value + close + after;
    reveal_strlit("</");
    assert(close[0] == '<');
    assert forall|j: int|
        before.len() + open.len() <= j < before.len() + open.len()
            + value.len() implies !text::occurs_at(s, close, j) by {
        assert(s[j] == value[j - before.len() - open.len()]);
        if text::occurs_at(s, close, j) {
            assert(s.subrange(j, j + close.len())[0] == '<');
        }
    }
    text::between_reads_back(before, open, value, close, after);
}

/// A string value, whatever stands around it, is read back: where its key does not
/// stand earlier and the value holds no quotation mark.
pub proof fn json_text_reads_back(
    before: Seq<char>,
    key: Seq<char>,
    value: Seq<char>,
    after: Seq<char>,
)
    requires
        forall|j: int|
            0 <= j < before.len() ==> !text::occurs_at(
                before + json_mark(key) + value + "\""@ + after,
                json_mark(key),
                j,
            ),
        !value.contains('"'),
    ensures
        json_text(before + json_mark(key) + value + "\""@ + after, key) == Some(value),
{
    let open = json_mark(key);
    let s = before + open + value + "\""@ + after;
    reveal_strlit("\"");
    assert forall|j: int|
        before.len() + open.len() <= j < before.len() + open.len()
            + value.len() implies !text::occurs_at(s, "\""@, j) by {
        assert(s[j] == value[j - before.len() - open.len()]);
        if text::occurs_at(s, "\""@, j) {
            assert(s.subrange(j, j + 1)[0] == '"');
        }
    }
    text::between_reads_back(before, open, value, "\""@, after);
}

/// An element that is not opened or not closed has no text, and a string that is not there
/// no value.
pub proof fn what_is_not_there_is_not_read(s: Seq<char>, name: Seq<char>)
    ensures
        !text::contains_text(s, "<"@ + name + ">"@) ==> tag_text(s, name) is None,
        !text::contains_text(s, "</"@ + name + ">"@) ==> tag_text(s, name) is None,
        !text::contains_text(s, "\""@ + name + "\":\""@) ==> json_text(s, name) is None,
{
    text::find_from_is_first(s, open_tag(name), 0);
    text::find_from_is_first(s, json_mark(name), 0);
    if let Some(i) = text::find_from(s, open_tag(name), 0) {
        text::find_from_is_first(s, close_tag(name), i + open_tag(name).len());
    }
}

} // verus!

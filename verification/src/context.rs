//! The deployment that the plugin is applied to, and its annotations.
use crate::settings;
use crate::string_map::StringMap;
use crate::text::{same_text, starts_with};
use vstd::prelude::*;
use vstd::string::*;

verus! {

/// The deployment that the plugin is applied to.
pub struct PluginContext {
    pub namespace: String,
    pub deployment_name: String,
    pub annotations: StringMap,
}

/// What a [`PluginContext`] holds.
pub struct PluginContextView {
    pub namespace: Seq<char>,
    pub deployment_name: Seq<char>,
    pub annotations: Map<Seq<char>, Seq<char>>,
}

impl View for PluginContext {
    type V = PluginContextView;

    open spec fn view(&self) -> PluginContextView {
        PluginContextView {
            namespace: self.namespace@,
            deployment_name: self.deployment_name@,
            annotations: self.annotations@,
        }
    }
}

impl PluginContextView {
    /// The value of an annotation, where it is there.
    pub open spec fn annotation(self, key: Seq<char>) -> Option<Seq<char>> {
        if self.annotations.contains_key(key) {
            Some(self.annotations[key])
        } else {
            None
        }
    }

    /// The value of an annotation, empty where it is not there.
    pub open spec fn string(self, key: Seq<char>) -> Seq<char> {
        settings::text_or(self.annotation(key), Seq::empty())
    }

    /// The value of an annotation, or another where it is not there or is empty.
    pub open spec fn string_or(self, key: Seq<char>, other: Seq<char>) -> Seq<char> {
        if self.string(key).len() == 0 {
            other
        } else {
            self.string(key)
        }
    }

    /// The value of an annotation, where it is there and not empty.
    pub open spec fn filled(self, key: Seq<char>) -> Option<Seq<char>> {
        if self.string(key).len() == 0 {
            None
        } else {
            Some(self.string(key))
        }
    }

    /// Some annotation is there whose key begins with `prefix`.
    pub open spec fn under(self, prefix: Seq<char>) -> bool {
        exists|key: Seq<char>| #[trigger]
            self.annotations.contains_key(key) && prefix.is_prefix_of(key)
    }

    /// The flag that an annotation sets, or the default where it sets none.
    pub open spec fn flag(self, key: Seq<char>, default: bool) -> bool {
        match self.annotation(key) {
            Some(v) if v == "true"@ || v == "yes"@ || v == "1"@ => true,
            Some(v) if v == "false"@ || v == "no"@ || v == "0"@ => false,
            _ => default,
        }
    }
}

/// The value of an annotation, where it is there.
pub fn ann<'a>(ctx: &'a PluginContext, key: &str) -> (value: Option<&'a String>)
    ensures
        match value {
            Some(v) => ctx@.annotation(key@) == Some(v@),
            None => ctx@.annotation(key@) is None,
        },
{
    ctx.annotations.get(key)
}

/// The value of an annotation, empty where it is not there.
pub fn ann_str(ctx: &PluginContext, key: &str) -> (value: String)
    ensures
        value@ == ctx@.string(key@),
{
    match ann(ctx, key) {
        Some(v) => v.clone(),
        None => String::new(),
    }
}

/// The flag that an annotation sets, or the default where it sets none.
pub fn ann_bool(ctx: &PluginContext, key: &str, default: bool) -> (flag: bool)
    ensures
        flag == ctx@.flag(key@, default),
{
    match ann(ctx, key) {
        Some(v) => {
            let v: &str = v.as_str();
            if same_text(v, "true") || same_text(v, "yes") || same_text(v, "1") {
                true
            } else if same_text(v, "false") || same_text(v, "no") || same_text(v, "0") {
                false
            } else {
                default
            }
        },
        None => default,
    }
}

/// Whether some annotation is there whose key begins with `prefix`.
pub fn ann_under(ctx: &PluginContext, prefix: &str) -> (there: bool)
    ensures
        there == ctx@.under(prefix@),
{
    let list = ctx.annotations.entries();
    let mut i: usize = 0;
    while i < list.len()
        invariant
            i <= list@.len(),
            forall|j: int| 0 <= j < i ==> !prefix@.is_prefix_of((#[trigger] list@[j]).0@),
            forall|j: int|
                0 <= j < list@.len() ==> ctx.annotations@.contains_key((#[trigger] list@[j]).0@),
        decreases list@.len() - i,
    {
        if starts_with(list[i].0.as_str(), prefix) {
            assert(ctx@.annotations.contains_key(list@[i as int].0@));
            return true;
        }
        i += 1;
    }
    false
}

/// The value of an annotation, or another where it is not there or is empty.
pub fn ann_or(ctx: &PluginContext, key: &str, other: &str) -> (value: String)
    ensures
        value@ == ctx@.string_or(key@, other@),
{
    let raw = ann_str(ctx, key);
    if raw.as_str().is_empty() {
        other.to_owned()
    } else {
        raw
    }
}

/// The value of an annotation, where it is there and not empty.
pub fn ann_filled(ctx: &PluginContext, key: &str) -> (value: Option<String>)
    ensures
        crate::text::opt_text(value) == ctx@.filled(key@),
{
    let raw = ann_str(ctx, key);
    if raw.as_str().is_empty() {
        None
    } else {
        Some(raw)
    }
}

// ── Laws ──────────────────────────────────────────────────────────────────────

/// A text is what an annotation says, where it says something, and another otherwise.
pub open spec fn told(
    ctx: PluginContextView,
    key: Seq<char>,
    other: Seq<char>,
    value: Seq<char>,
) -> bool {
    if ctx.annotations.contains_key(key) && ctx.annotations[key].len() > 0 {
        value == ctx.annotations[key]
    } else {
        value == other
    }
}

/// A flag is what an annotation says, where it says yes or no, and the default otherwise.
pub open spec fn switched(
    ctx: PluginContextView,
    key: Seq<char>,
    default: bool,
    value: bool,
) -> bool {
    let said = ctx.annotations[key];
    if ctx.annotations.contains_key(key) && (said == "true"@ || said == "yes"@ || said == "1"@) {
        value
    } else if ctx.annotations.contains_key(key) && (said == "false"@ || said == "no"@ || said
        == "0"@) {
        !value
    } else {
        value == default
    }
}

/// The words for yes and those for no are told apart.
proof fn yes_is_not_no()
    ensures
        "true"@ != "false"@ && "true"@ != "no"@ && "true"@ != "0"@,
        "yes"@ != "false"@ && "yes"@ != "no"@ && "yes"@ != "0"@,
        "1"@ != "false"@ && "1"@ != "no"@ && "1"@ != "0"@,
{
    reveal_strlit("true");
    reveal_strlit("yes");
    reveal_strlit("1");
    reveal_strlit("false");
    reveal_strlit("no");
    reveal_strlit("0");
    assert("true"@.len() == 4 && "yes"@.len() == 3 && "false"@.len() == 5 && "no"@.len() == 2);
    assert("1"@[0] == '1' && "0"@[0] == '0' && "1"@.len() == 1 && "0"@.len() == 1);
}

/// Annotations are read as they are written: texts, optional texts and flags.
pub proof fn annotations_are_read(
    ctx: PluginContextView,
    key: Seq<char>,
    other: Seq<char>,
    default: bool,
)
    ensures
        ctx.annotations.contains_key(key) ==> ctx.annotation(key) == Some(ctx.annotations[key])
            && ctx.string(key) == ctx.annotations[key],
        !ctx.annotations.contains_key(key) ==> ctx.annotation(key) is None && ctx.string(key).len()
            == 0,
        told(ctx, key, other, ctx.string_or(key, other)),
        switched(ctx, key, default, ctx.flag(key, default)),
        ctx.filled(key) matches Some(v) ==> ctx.annotations.contains_key(key) && v
            == ctx.annotations[key] && v.len() > 0,
        ctx.filled(key) is None ==> !ctx.annotations.contains_key(key)
            || ctx.annotations[key].len() == 0,
{
    yes_is_not_no();
}

} // verus!

//! JSON values, as far as manifests need them: strings and objects.
use crate::text::same_text;
use vstd::prelude::*;

verus! {

/// A string, or an object with its members in order.
pub enum JsonValue {
    Str(String),
    Object(Vec<(String, JsonValue)>),
}

/// What a [`JsonValue`] holds.
pub enum JsonView {
    Str(Seq<char>),
    Object(Seq<(Seq<char>, JsonView)>),
}

impl JsonValue {
    /// What the value holds.
    pub open spec fn content(self) -> JsonView
        decreases self,
    {
        match self {
            JsonValue::Str(s) => JsonView::Str(s@),
            JsonValue::Object(members) => JsonView::Object(
                Seq::new(
                    members@.len(),
                    |i: int|
                        if 0 <= i < members@.len() {
                            (members@[i].0@, members@[i].1.content())
                        } else {
                            arbitrary()
                        },
                ),
            ),
        }
    }
}

impl View for JsonValue {
    type V = JsonView;

    open spec fn view(&self) -> JsonView {
        self.content()
    }
}

/// The first member of that name, from position `i` on.
pub open spec fn member_from(members: Seq<(Seq<char>, JsonView)>, key: Seq<char>, i: int) -> Option<
    JsonView,
>
    decreases members.len() - i,
{
    if i < 0 || i >= members.len() {
        None
    } else if members[i].0 == key {
        Some(members[i].1)
    } else {
        member_from(members, key, i + 1)
    }
}

impl JsonView {
    /// The member of that name, where the value is an object that has one.
    pub open spec fn member(self, key: Seq<char>) -> Option<JsonView> {
        match self {
            JsonView::Str(_) => None,
            JsonView::Object(members) => member_from(members, key, 0),
        }
    }
}

impl JsonValue {
    /// A string.
    pub fn string(s: &str) -> (value: JsonValue)
        ensures
            value@ == JsonView::Str(s@),
    {
        JsonValue::Str(s.to_owned())
    }

    /// An object without members.
    pub fn object() -> (value: JsonValue)
        ensures
            value is Object,
            value@ == JsonView::Object(Seq::empty()),
    {
        let value = JsonValue::Object(Vec::new());
        assert(value@->Object_0 =~= Seq::empty());
        value
    }

    /// The object with one member more, at the end.
    pub(crate) fn with(self, key: &str, member: JsonValue) -> (value: JsonValue)
        requires
            self is Object,
        ensures
            value is Object,
            value@ == JsonView::Object(self@->Object_0.push((key@, member@))),
    {
        match self {
            JsonValue::Str(s) => JsonValue::Str(s),
            JsonValue::Object(members) => {
                let mut members = members;
                members.push((key.to_owned(), member));
                let value = JsonValue::Object(members);
                proof {
                    let all = self@->Object_0.push((key@, member@));
                    assert(value@->Object_0 =~= all);
                }
                value
            },
        }
    }

    /// The member of that name, where the value is an object that has one.
    pub fn get(&self, key: &str) -> (member: Option<&JsonValue>)
        ensures
            match member {
                Some(v) => self@.member(key@) == Some(v@),
                None => self@.member(key@) is None,
            },
    {
        match self {
            JsonValue::Str(_) => None,
            JsonValue::Object(members) => {
                let ghost all = self@->Object_0;
                let mut i: usize = 0;
                while i < members.len()
                    invariant
                        i <= members@.len(),
                        self == JsonValue::Object(*members),
                        all == self@->Object_0,
                        member_from(all, key@, 0) == member_from(all, key@, i as int),
                    decreases members@.len() - i,
                {
                    if same_text(members[i].0.as_str(), key) {
                        return Some(&members[i].1);
                    }
                    i += 1;
                }
                None
            },
        }
    }

    /// The text, where the value is a string.
    pub fn as_str(&self) -> (s: Option<&str>)
        ensures
            match s {
                Some(s) => self@ == JsonView::Str(s@),
                None => self@ is Object,
            },
    {
        match self {
            JsonValue::Str(s) => Some(s.as_str()),
            JsonValue::Object(_) => None,
        }
    }
}

// ── Laws ──────────────────────────────────────────────────────────────────────

/// Members that have another name are passed over.
proof fn others_are_passed_over(members: Seq<(Seq<char>, JsonView)>, key: Seq<char>, i: int, n: int)
    requires
        0 <= i <= n <= members.len(),
        forall|j: int| i <= j < n ==> (#[trigger] members[j]).0 != key,
    ensures
        member_from(members, key, i) == member_from(members, key, n),
    decreases n - i,
{
    if i < n {
        others_are_passed_over(members, key, i + 1, n);
    }
}

/// The member of a name is the first that has it. An object in which none has it, and a
/// string, have no member of that name.
pub proof fn member_is_the_first_of_its_name(
    members: Seq<(Seq<char>, JsonView)>,
    key: Seq<char>,
    n: int,
    s: Seq<char>,
)
    requires
        0 <= n <= members.len(),
        forall|j: int| 0 <= j < n ==> (#[trigger] members[j]).0 != key,
    ensures
        n < members.len() && members[n].0 == key ==> JsonView::Object(members).member(key) == Some(
            members[n].1,
        ),
        n == members.len() ==> JsonView::Object(members).member(key) is None,
        JsonView::Str(s).member(key) is None,
{
    others_are_passed_over(members, key, 0, n);
}

} // verus!

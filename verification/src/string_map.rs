//! A map from strings to strings.
use crate::text;
use crate::text::same_text;
use vstd::prelude::*;

verus! {

broadcast use crate::text::pairs_push;

/// No key stands twice in the list.
spec fn distinct(list: Seq<(Seq<char>, Seq<char>)>) -> bool {
    forall|i: int, j: int|
        0 <= i < j < list.len() ==> (#[trigger] list[i]).0 != (#[trigger] list[j]).0
}

/// The key stands in the list.
spec fn has_key(list: Seq<(Seq<char>, Seq<char>)>, key: Seq<char>) -> bool {
    exists|i: int| 0 <= i < list.len() && (#[trigger] list[i]).0 == key
}

/// Where the key stands in the list.
spec fn index_of(list: Seq<(Seq<char>, Seq<char>)>, key: Seq<char>) -> int {
    choose|i: int| 0 <= i < list.len() && (#[trigger] list[i]).0 == key
}

/// The map that the list stands for.
spec fn map_of(list: Seq<(Seq<char>, Seq<char>)>) -> Map<Seq<char>, Seq<char>> {
    Map::new(|key: Seq<char>| has_key(list, key), |key: Seq<char>| list[index_of(list, key)].1)
}

/// A map from strings to strings. Each key has one value.
pub struct StringMap {
    entries: Vec<(String, String)>,
}

impl View for StringMap {
    type V = Map<Seq<char>, Seq<char>>;

    closed spec fn view(&self) -> Map<Seq<char>, Seq<char>> {
        map_of(text::pairs(self.entries@))
    }
}

impl StringMap {
    #[verifier::type_invariant]
    spec fn keys_are_distinct(self) -> bool {
        distinct(text::pairs(self.entries@))
    }

    /// The empty map.
    pub fn new() -> (map: StringMap)
        ensures
            map@ == Map::<Seq<char>, Seq<char>>::empty(),
    {
        let map = StringMap { entries: Vec::new() };
        assert(map@ =~= Map::<Seq<char>, Seq<char>>::empty());
        map
    }

    /// Where the key stands among the entries.
    fn position(entries: &Vec<(String, String)>, key: &str) -> (at: Option<usize>)
        ensures
            match at {
                Some(i) => i < entries@.len() && entries@[i as int].0@ == key@,
                None => !has_key(text::pairs(entries@), key@),
            },
    {
        let mut i: usize = 0;
        while i < entries.len()
            invariant
                i <= entries@.len(),
                forall|j: int| 0 <= j < i ==> (#[trigger] text::pairs(entries@)[j]).0 != key@,
            decreases entries@.len() - i,
        {
            if same_text(entries[i].0.as_str(), key) {
                return Some(i);
            }
            i += 1;
        }
        None
    }

    /// Gives the key its value, in the place of one it has.
    pub fn insert(&mut self, key: String, value: String)
        ensures
            final(self)@ == old(self)@.insert(key@, value@),
    {
        proof {
            use_type_invariant(&*self);
        }
        let ghost before = text::pairs(self.entries@);
        let ghost map = self@;
        let ghost (k, v) = (key@, value@);
        let mut entries: Vec<(String, String)> = Vec::new();
        std::mem::swap(&mut entries, &mut self.entries);
        match Self::position(&entries, key.as_str()) {
            Some(i) => {
                entries[i] = (key, value);
                proof {
                    let after = text::pairs(entries@);
                    assert(after =~= before.update(i as int, (k, v)));
                    assert(before[i as int].0 == k);
                    assert(distinct(after)) by {
                        assert forall|a: int, b: int| 0 <= a < b < after.len() implies (
                        #[trigger] after[a]).0 != (#[trigger] after[b]).0 by {
                            assert(before[a].0 != before[b].0);
                        }
                    }
                    assert forall|other: Seq<char>| has_key(after, other) == (has_key(before, other)
                        || other == k) by {
                        if has_key(before, other) {
                            assert(after[index_of(before, other)].0 == other);
                        }
                        assert(after[i as int].0 == k);
                        if has_key(after, other) {
                            let j = index_of(after, other);
                            assert(before[j].0 == other || other == k);
                        }
                    }
                    assert forall|other: Seq<char>| has_key(after, other) implies map_of(
                        after,
                    )[other] == map.insert(k, v)[other] by {
                        let j = index_of(after, other);
                        if other == k {
                            assert(after[i as int].0 == k);
                            assert(j == i);
                        } else {
                            assert(j != i);
                            assert(before[j].0 == other);
                            assert(index_of(before, other) == j);
                        }
                    }
                    assert(map_of(after) =~= map.insert(k, v));
                }
            },
            None => {
                entries.push((key, value));
                proof {
                    let after = text::pairs(entries@);
                    let n = before.len() as int;
                    assert(after =~= before.push((k, v)));
                    assert(after[n].0 == k);
                    assert(distinct(after)) by {
                        assert forall|a: int, b: int| 0 <= a < b < after.len() implies (
                        #[trigger] after[a]).0 != (#[trigger] after[b]).0 by {
                            if b == n {
                                assert(before[a].0 != k);
                            } else {
                                assert(before[a].0 != before[b].0);
                            }
                        }
                    }
                    assert forall|other: Seq<char>| has_key(after, other) == (has_key(before, other)
                        || other == k) by {
                        if has_key(before, other) {
                            assert(after[index_of(before, other)].0 == other);
                        }
                        if has_key(after, other) {
                            let j = index_of(after, other);
                            if j < n {
                                assert(before[j].0 == other);
                            }
                        }
                    }
                    assert forall|other: Seq<char>| has_key(after, other) implies map_of(
                        after,
                    )[other] == map.insert(k, v)[other] by {
                        let j = index_of(after, other);
                        if other == k {
                            assert(j == n);
                        } else {
                            assert(before[j].0 == other);
                            assert(index_of(before, other) == j);
                        }
                    }
                    assert(map_of(after) =~= map.insert(k, v));
                }
            },
        }
        self.entries = entries;
    }

    /// The key's value, where it has one.
    pub fn get(&self, key: &str) -> (value: Option<&String>)
        ensures
            match value {
                Some(v) => self@.contains_key(key@) && self@[key@] == v@,
                None => !self@.contains_key(key@),
            },
    {
        proof {
            use_type_invariant(self);
        }
        match Self::position(&self.entries, key) {
            Some(i) => {
                proof {
                    let list = text::pairs(self.entries@);
                    assert(list[i as int].0 == key@);
                    assert(index_of(list, key@) == i);
                }
                Some(&self.entries[i].1)
            },
            None => None,
        }
    }

    /// Whether the key has a value.
    pub fn contains_key(&self, key: &str) -> (contains: bool)
        ensures
            contains == self@.contains_key(key@),
    {
        self.get(key).is_some()
    }

    /// Whether no key has a value.
    pub fn is_empty(&self) -> (empty: bool)
        ensures
            empty == (self@ == Map::<Seq<char>, Seq<char>>::empty()),
    {
        let ghost list = text::pairs(self.entries@);
        if self.entries.len() == 0 {
            assert(self@ =~= Map::<Seq<char>, Seq<char>>::empty());
            true
        } else {
            assert(list[0].0 == list[0].0);
            assert(self@.contains_key(list[0].0));
            false
        }
    }

    /// The keys and their values, each key once, in no particular order.
    pub fn entries(&self) -> (list: &Vec<(String, String)>)
        ensures
            forall|i: int, j: int|
                0 <= i < j < list@.len() ==> (#[trigger] list@[i]).0@ != (#[trigger] list@[j]).0@,
            forall|i: int|
                0 <= i < list@.len() ==> self@.contains_key((#[trigger] list@[i]).0@)
                    && self@[list@[i].0@] == list@[i].1@,
            forall|key: Seq<char>|
                #[trigger] self@.contains_key(key) ==> exists|i: int|
                    0 <= i < list@.len() && (#[trigger] list@[i]).0@ == key,
    {
        proof {
            use_type_invariant(self);
            let list = text::pairs(self.entries@);
            assert forall|i: int, j: int| 0 <= i < j < self.entries@.len() implies (
            #[trigger] self.entries@[i]).0@ != (#[trigger] self.entries@[j]).0@ by {
                assert(list[i].0 != list[j].0);
            }
            assert forall|i: int| 0 <= i < self.entries@.len() implies self@.contains_key(
                (#[trigger] self.entries@[i]).0@,
            ) && self@[self.entries@[i].0@] == self.entries@[i].1@ by {
                assert(list[i].0 == self.entries@[i].0@);
                assert(index_of(list, list[i].0) == i);
            }
            assert forall|key: Seq<char>| #[trigger] self@.contains_key(key) implies exists|i: int|
                0 <= i < self.entries@.len() && (#[trigger] self.entries@[i]).0@ == key by {
                let i = index_of(list, key);
                assert(list[i].0 == self.entries@[i].0@);
            }
        }
        &self.entries
    }
}

} // verus!

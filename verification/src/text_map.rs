//! A map from texts to values.
use crate::duplicate::Duplicate;
use crate::text;
use vstd::prelude::*;

verus! {

/// One entry of a map.
#[derive(Debug)]
pub struct TextEntry<V> {
    /// What the value is found by.
    pub key: String,
    /// The value.
    pub value: V,
}

/// The view of one entry of a map.
pub struct TextEntryView<V> {
    pub key: Seq<char>,
    pub value: V,
}

impl<V: DeepView> DeepView for TextEntry<V> {
    type V = TextEntryView<V::V>;

    open spec fn deep_view(&self) -> TextEntryView<V::V> {
        TextEntryView { key: self.key@, value: self.value.deep_view() }
    }
}

impl<V: Duplicate> Duplicate for TextEntry<V> {
    fn duplicate(&self) -> (res: Self) {
        TextEntry { key: self.key.duplicate(), value: self.value.duplicate() }
    }
}

/// A map from texts to values.
#[derive(Debug)]
pub struct TextMap<V> {
    entries: Vec<TextEntry<V>>,
}

/// The value of the last entry under the key.
pub open spec fn last_under<V>(entries: Seq<TextEntryView<V>>, key: Seq<char>) -> Option<V>
    decreases entries.len(),
{
    if entries.len() == 0 {
        None
    } else if entries.last().key == key {
        Some(entries.last().value)
    } else {
        last_under(entries.drop_last(), key)
    }
}

/// The map that the entries stand for.
pub open spec fn map_of<V>(entries: Seq<TextEntryView<V>>) -> Map<Seq<char>, V> {
    Map::new(
        |key: Seq<char>| last_under(entries, key) is Some,
        |key: Seq<char>| last_under(entries, key)->0,
    )
}

impl<V: DeepView> DeepView for TextMap<V> {
    type V = Map<Seq<char>, V::V>;

    closed spec fn deep_view(&self) -> Map<Seq<char>, V::V> {
        map_of(self.entries.deep_view())
    }
}

/// The value of the last entry under a key, found at its place.
proof fn last_under_at<V>(entries: Seq<TextEntryView<V>>, key: Seq<char>, at: int)
    requires
        0 <= at < entries.len(),
        entries[at].key == key,
        forall|j: int| at < j < entries.len() ==> (#[trigger] entries[j]).key != key,
    ensures
        last_under(entries, key) == Some(entries[at].value),
    decreases entries.len(),
{
    if at < entries.len() - 1 {
        last_under_at(entries.drop_last(), key, at);
    }
}

/// A key that no entry has is not found.
proof fn last_under_none<V>(entries: Seq<TextEntryView<V>>, key: Seq<char>)
    requires
        forall|j: int| 0 <= j < entries.len() ==> (#[trigger] entries[j]).key != key,
    ensures
        last_under(entries, key) is None,
    decreases entries.len(),
{
    if entries.len() > 0 {
        last_under_none(entries.drop_last(), key);
    }
}

/// Another value under a key changes nothing for the other keys.
proof fn last_under_update<V>(
    entries: Seq<TextEntryView<V>>,
    at: int,
    entry: TextEntryView<V>,
    key: Seq<char>,
)
    requires
        0 <= at < entries.len(),
        entries[at].key == entry.key,
        key != entry.key,
    ensures
        last_under(entries.update(at, entry), key) == last_under(entries, key),
    decreases entries.len(),
{
    let changed = entries.update(at, entry);
    if at < entries.len() - 1 {
        last_under_update(entries.drop_last(), at, entry, key);
        assert(changed.drop_last() =~= entries.drop_last().update(at, entry));
    } else {
        assert(changed.drop_last() =~= entries.drop_last());
    }
}

impl<V: DeepView> TextMap<V> {
    /// A map without entries.
    pub fn new() -> (res: Self)
        ensures
            res.deep_view() == Map::<Seq<char>, V::V>::empty(),
    {
        let res = TextMap { entries: Vec::new() };
        assert(res.deep_view() =~= Map::<Seq<char>, V::V>::empty()) by {
            assert forall|key: Seq<char>| last_under(res.entries.deep_view(), key) is None by {
                last_under_none(res.entries.deep_view(), key);
            }
        }
        res
    }

    /// Where the last entry under the key is.
    fn find(&self, key: &str) -> (res: Option<usize>)
        ensures
            match res {
                Some(at) => at < self.entries.len() && self.entries@[at as int].key@ == key@ && (
                forall|j: int|
                    at < j < self.entries.len() ==> (#[trigger] self.entries@[j]).key@ != key@),
                None => forall|j: int|
                    0 <= j < self.entries.len() ==> (#[trigger] self.entries@[j]).key@ != key@,
            },
    {
        let mut i: usize = self.entries.len();
        while i > 0
            invariant
                i <= self.entries.len(),
                forall|j: int|
                    i <= j < self.entries.len() ==> (#[trigger] self.entries@[j]).key@ != key@,
            decreases i,
        {
            if text::same(self.entries[i - 1].key.as_str(), key) {
                return Some(i - 1);
            }
            i = i - 1;
        }
        None
    }

    /// The value under the key.
    pub fn get(&self, key: &str) -> (res: Option<&V>)
        ensures
            match res {
                Some(value) => self.deep_view().contains_key(key@) && self.deep_view()[key@]
                    == value.deep_view(),
                None => !self.deep_view().contains_key(key@),
            },
    {
        match self.find(key) {
            Some(at) => {
                proof {
                    last_under_at(self.entries.deep_view(), key@, at as int);
                }
                Some(&self.entries[at].value)
            },
            None => {
                proof {
                    last_under_none(self.entries.deep_view(), key@);
                }
                None
            },
        }
    }

    /// Puts a value under the key.
    pub fn put(&mut self, key: String, value: V)
        ensures
            final(self).deep_view() == old(self).deep_view().insert(key@, value.deep_view()),
    {
        let ghost before = self.entries.deep_view();
        let ghost entry = TextEntryView { key: key@, value: value.deep_view() };
        match self.find(key.as_str()) {
            Some(at) => {
                self.entries[at] = TextEntry { key, value };
                let ghost after = self.entries.deep_view();
                proof {
                    assert(after =~= before.update(at as int, entry));
                    last_under_at(after, entry.key, at as int);
                    assert forall|other: Seq<char>| other != entry.key implies #[trigger] last_under(
                        after,
                        other,
                    ) == last_under(before, other) by {
                        last_under_update(before, at as int, entry, other);
                    }
                    assert(map_of(after) =~= map_of(before).insert(entry.key, entry.value));
                }
            },
            None => {
                self.entries.push(TextEntry { key, value });
                let ghost after = self.entries.deep_view();
                proof {
                    assert(after =~= before.push(entry));
                    assert(after.drop_last() =~= before);
                    assert(map_of(after) =~= map_of(before).insert(entry.key, entry.value));
                }
            },
        }
    }
}

impl<V: Duplicate> Duplicate for TextMap<V> {
    fn duplicate(&self) -> (res: Self) {
        TextMap { entries: self.entries.duplicate() }
    }
}

} // verus!

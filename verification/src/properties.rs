//! The property dictionary that the server attaches to a graph object: text
//! keys mapped to text values.

use crate::text::str_eq;
use vstd::prelude::*;

verus! {

/// The position of the first entry at or after `from` whose key is `key`;
/// the number of entries if there is none.
spec fn first_match(entries: Seq<(String, String)>, key: Seq<char>, from: int) -> int
    decreases entries.len() - from,
{
    if from >= entries.len() {
        entries.len() as int
    } else if entries[from].0@ == key {
        from
    } else {
        first_match(entries, key, from + 1)
    }
}

/// What `first_match` finds: no entry before it has the key, and the entry
/// at it, if there is one, has.
proof fn lemma_first_match(entries: Seq<(String, String)>, key: Seq<char>, from: int)
    requires
        0 <= from <= entries.len(),
    ensures
        from <= first_match(entries, key, from) <= entries.len(),
        forall|j: int| from <= j < first_match(entries, key, from) ==> entries[j].0@ != key,
        first_match(entries, key, from) < entries.len() ==> entries[first_match(
            entries,
            key,
            from,
        )].0@ == key,
    decreases entries.len() - from,
{
    if from < entries.len() && entries[from].0@ != key {
        lemma_first_match(entries, key, from + 1);
    }
}

/// The search from the start finds the entry that has the key while none
/// before it has; it finds nothing where no entry has the key.
proof fn lemma_first_match_is(entries: Seq<(String, String)>, key: Seq<char>, at: int)
    requires
        0 <= at <= entries.len(),
        forall|j: int| 0 <= j < at ==> entries[j].0@ != key,
        at < entries.len() ==> entries[at].0@ == key,
    ensures
        first_match(entries, key, 0) == at,
{
    lemma_first_match(entries, key, 0);
}

/// The value that a list of pairs gives to `key`: that of the first pair
/// whose key it is.
pub open spec fn first_value(pairs: Seq<(Seq<char>, Seq<char>)>, key: Seq<char>) -> Option<
    Seq<char>,
>
    decreases pairs.len(),
{
    if pairs.len() == 0 {
        None
    } else if pairs[0].0 == key {
        Some(pairs[0].1)
    } else {
        first_value(pairs.drop_first(), key)
    }
}

/// The texts of a list of pairs.
pub open spec fn pair_texts(pairs: Seq<(&str, &str)>) -> Seq<(Seq<char>, Seq<char>)> {
    Seq::new(pairs.len(), |i: int| (pairs[i].0@, pairs[i].1@))
}

/// A pair that is added at the end of a list gives its value to its key
/// only if no pair before it has that key.
proof fn lemma_first_value_push(
    pairs: Seq<(Seq<char>, Seq<char>)>,
    last: (Seq<char>, Seq<char>),
    key: Seq<char>,
)
    ensures
        first_value(pairs.push(last), key) == (if first_value(pairs, key) is Some {
            first_value(pairs, key)
        } else if last.0 == key {
            Some(last.1)
        } else {
            None
        }),
    decreases pairs.len(),
{
    let longer = pairs.push(last);
    if pairs.len() == 0 {
        assert(longer.drop_first().len() == 0);
    } else {
        assert(longer.drop_first() == pairs.drop_first().push(last));
        lemma_first_value_push(pairs.drop_first(), last, key);
    }
}

/// A dictionary of properties. Keys and values are texts; a key occurs at
/// most once, and the order in which properties were set does not matter.
#[derive(Debug)]
pub struct Properties {
    entries: Vec<(String, String)>,
}

/// No two entries have the same key.
spec fn keys_distinct(entries: Seq<(String, String)>) -> bool {
    forall|i: int, j: int| 0 <= i < j < entries.len() ==> entries[i].0@ != entries[j].0@
}

/// The map that a list of entries stands for: each key with the value of
/// the first entry that has it.
spec fn map_of(entries: Seq<(String, String)>) -> Map<Seq<char>, Seq<char>> {
    Map::new(
        |key: Seq<char>| first_match(entries, key, 0) < entries.len(),
        |key: Seq<char>| entries[first_match(entries, key, 0)].1@,
    )
}

/// Setting the value of the entry that has the key `key` sets the value of
/// `key` in the map, and keeps the keys distinct.
proof fn lemma_replace(
    before: Seq<(String, String)>,
    at: int,
    entry: (String, String),
)
    requires
        0 <= at < before.len(),
        forall|j: int| 0 <= j < at ==> before[j].0@ != entry.0@,
        before[at].0@ == entry.0@,
    ensures
        map_of(before.update(at, entry)) == map_of(before).insert(entry.0@, entry.1@),
        keys_distinct(before) ==> keys_distinct(before.update(at, entry)),
{
    let after = before.update(at, entry);
    lemma_first_match_is(before, entry.0@, at);
    assert forall|other: Seq<char>|
        {
            let found = first_match(before, other, 0);
            &&& 0 <= found
            &&& #[trigger] first_match(after, other, 0) == found
            &&& found < before.len() ==> before[found].0@ == other
        } by {
        lemma_first_match(before, other, 0);
        lemma_first_match_is(after, other, first_match(before, other, 0));
    }
}

/// Appending an entry whose key no entry has sets the value of that key in
/// the map, and keeps the keys distinct.
proof fn lemma_append(before: Seq<(String, String)>, entry: (String, String))
    requires
        forall|j: int| 0 <= j < before.len() ==> before[j].0@ != entry.0@,
    ensures
        map_of(before.push(entry)) == map_of(before).insert(entry.0@, entry.1@),
        keys_distinct(before) ==> keys_distinct(before.push(entry)),
{
    let after = before.push(entry);
    assert forall|other: Seq<char>|
        {
            let found = first_match(before, other, 0);
            &&& 0 <= found <= before.len()
            &&& #[trigger] first_match(after, other, 0) == (if found < before.len() || other
                == entry.0@ {
                found
            } else {
                after.len() as int
            })
        } by {
        lemma_first_match(before, other, 0);
        let found = first_match(before, other, 0);
        if found < before.len() || other == entry.0@ {
            lemma_first_match_is(after, other, found);
        } else {
            lemma_first_match_is(after, other, after.len() as int);
        }
    }
    lemma_first_match(before, entry.0@, 0);
}

impl Properties {
    #[verifier::type_invariant]
    spec fn well_formed(self) -> bool {
        keys_distinct(self.entries@)
    }

    /// The dictionary as a map from keys to values.
    pub closed spec fn view(&self) -> Map<Seq<char>, Seq<char>> {
        map_of(self.entries@)
    }

    /// Creates a dictionary without properties.
    pub fn new() -> (properties: Self)
        ensures
            properties@ == Map::<Seq<char>, Seq<char>>::empty(),
    {
        let properties = Properties { entries: Vec::new() };
        properties
    }

    /// Makes a dictionary of a list of pairs. Where several pairs have the
    /// same key, the first of them counts.
    pub fn from_pairs(pairs: &[(&str, &str)]) -> (properties: Self)
        ensures
            forall|key: Seq<char>|
                properties@.get(key) == #[trigger] first_value(pair_texts(pairs@), key),
    {
        let mut properties = Properties::new();
        let mut i: usize = 0;
        while i < pairs.len()
            invariant
                i <= pairs.len(),
                forall|key: Seq<char>|
                    properties@.get(key) == #[trigger] first_value(
                        pair_texts(pairs@).take(i as int),
                        key,
                    ),
            decreases pairs.len() - i,
        {
            let (key, value) = pairs[i];
            proof {
                let texts = pair_texts(pairs@);
                assert(texts.take(i + 1) == texts.take(i as int).push(texts[i as int]));
                assert forall|other: Seq<char>|
                    #[trigger] first_value(texts.take(i + 1), other) == (if first_value(
                        texts.take(i as int),
                        other,
                    ) is Some {
                        first_value(texts.take(i as int), other)
                    } else if key@ == other {
                        Some(value@)
                    } else {
                        None
                    }) by {
                    lemma_first_value_push(texts.take(i as int), texts[i as int], other);
                }
            }
            if properties.get(key).is_none() {
                properties.insert(key, value);
            }
            i += 1;
        }
        assert(pair_texts(pairs@).take(i as int) == pair_texts(pairs@));
        properties
    }

    /// Sets the property `key` to `value`, replacing the value it had.
    pub fn insert(&mut self, key: &str, value: &str)
        ensures
            final(self)@ == old(self)@.insert(key@, value@),
    {
        proof {
            use_type_invariant(&*self);
        }
        let mut entries: Vec<(String, String)> = Vec::new();
        std::mem::swap(&mut entries, &mut self.entries);
        let entry = (key.to_owned(), value.to_owned());
        let mut i: usize = 0;
        while i < entries.len()
            invariant
                entries@ == old(self).entries@,
                i <= entries.len(),
                forall|j: int| 0 <= j < i ==> entries@[j].0@ != key@,
            ensures
                i < entries.len() ==> entries@[i as int].0@ == key@,
            decreases entries.len() - i,
        {
            if str_eq(entries[i].0.as_str(), key) {
                break ;
            }
            i += 1;
        }
        if i < entries.len() {
            proof {
                lemma_replace(entries@, i as int, entry);
            }
            entries.set(i, entry);
        } else {
            proof {
                lemma_append(entries@, entry);
            }
            entries.push(entry);
        }
        self.entries = entries;
    }

    /// Looks up the value of the property `key`.
    pub fn get(&self, key: &str) -> (value: Option<&str>)
        ensures
            match value {
                Some(found) => self@.get(key@) == Some(found@),
                None => !self@.contains_key(key@),
            },
    {
        let mut i: usize = 0;
        while i < self.entries.len()
            invariant
                i <= self.entries.len(),
                forall|j: int| 0 <= j < i ==> self.entries@[j].0@ != key@,
            decreases self.entries.len() - i,
        {
            if str_eq(self.entries[i].0.as_str(), key) {
                proof {
                    lemma_first_match_is(self.entries@, key@, i as int);
                }
                return Some(self.entries[i].1.as_str());
            }
            i += 1;
        }
        proof {
            lemma_first_match_is(self.entries@, key@, self.entries@.len() as int);
        }
        None
    }

    /// Lists the properties, each key with its value. Every property is
    /// listed, and once.
    pub fn pairs(&self) -> (pairs: Vec<(String, String)>)
        ensures
            forall|i: int|
                0 <= i < pairs@.len() ==> self@.get((#[trigger] pairs@[i]).0@) == Some(
                    pairs@[i].1@,
                ),
            forall|key: Seq<char>|
                self@.contains_key(key) ==> exists|i: int|
                    0 <= i < pairs@.len() && (#[trigger] pairs@[i]).0@ == key,
            forall|i: int, j: int|
                0 <= i < j < pairs@.len() ==> (#[trigger] pairs@[i]).0@ != (#[trigger] pairs@[j]).0@,
    {
        proof {
            use_type_invariant(self);
        }
        let mut pairs: Vec<(String, String)> = Vec::new();
        let mut i: usize = 0;
        while i < self.entries.len()
            invariant
                i <= self.entries.len(),
                pairs@.len() == i,
                forall|j: int|
                    0 <= j < i ==> (#[trigger] pairs@[j]).0@ == self.entries@[j].0@ && pairs@[j].1@
                        == self.entries@[j].1@,
            decreases self.entries.len() - i,
        {
            pairs.push((self.entries[i].0.clone(), self.entries[i].1.clone()));
            i += 1;
        }
        proof {
            let entries = self.entries@;
            assert forall|j: int| 0 <= j < pairs@.len() implies self@.get(
                (#[trigger] pairs@[j]).0@,
            ) == Some(pairs@[j].1@) by {
                lemma_first_match_is(entries, entries[j].0@, j);
            }
            assert forall|key: Seq<char>| self@.contains_key(key) implies exists|j: int|
                0 <= j < pairs@.len() && (#[trigger] pairs@[j]).0@ == key by {
                lemma_first_match(entries, key, 0);
                let found = first_match(entries, key, 0);
                assert(pairs@[found].0@ == key);
            }
        }
        pairs
    }
}

} // verus!

//! Dictionaries with text keys.

use vstd::prelude::*;

use crate::text::same_text;

verus! {

/// A dictionary from texts to values, in which no key occurs twice.
///
/// Its mathematical value (`deep_view`) is a map from texts to the values' own
/// mathematical values.
#[derive(Debug)]
pub struct Dict<V> {
    entries: Vec<(String, V)>,
}

impl<V> Dict<V> {
    #[verifier::type_invariant]
    spec fn distinct_keys(self) -> bool {
        no_key_twice(self.entries@)
    }
}

spec fn no_key_twice<V>(entries: Seq<(String, V)>) -> bool {
    forall|i: int, j: int|
        #![trigger entries[i], entries[j]]
        0 <= i < j < entries.len() ==> entries[i].0@ != entries[j].0@
}

spec fn has_key<V>(entries: Seq<(String, V)>, key: Seq<char>) -> bool {
    exists|i: int| 0 <= i < entries.len() && (#[trigger] entries[i]).0@ == key
}

spec fn key_index<V>(entries: Seq<(String, V)>, key: Seq<char>) -> int {
    choose|i: int| 0 <= i < entries.len() && (#[trigger] entries[i]).0@ == key
}

spec fn entries_map<V: DeepView>(entries: Seq<(String, V)>) -> Map<Seq<char>, V::V> {
    Map::new(
        |key: Seq<char>| has_key(entries, key),
        |key: Seq<char>| entries[key_index(entries, key)].1.deep_view(),
    )
}

impl<V: DeepView> DeepView for Dict<V> {
    type V = Map<Seq<char>, V::V>;

    closed spec fn deep_view(&self) -> Map<Seq<char>, V::V> {
        entries_map(self.entries@)
    }
}

impl<V: DeepView> Dict<V> {
    /// The empty dictionary.
    pub fn new() -> (dict: Self)
        ensures
            dict.deep_view() == Map::<Seq<char>, V::V>::empty(),
    {
        let dict = Dict { entries: Vec::new() };
        assert(dict.deep_view() =~= Map::<Seq<char>, V::V>::empty());
        dict
    }

    /// Where `key` stands among the entries.
    fn position(&self, key: &str) -> (found: Option<usize>)
        ensures
            match found {
                Some(i) => i < self.entries@.len() && self.entries@[i as int].0@ == key@,
                None => !has_key(self.entries@, key@),
            },
    {
        for i in 0..self.entries.len()
            invariant
                forall|j: int| 0 <= j < i ==> (#[trigger] self.entries@[j]).0@ != key@,
        {
            if same_text(self.entries[i].0.as_str(), key) {
                return Some(i);
            }
        }
        None
    }

    /// The value under `key`, if there is one.
    pub fn get(&self, key: &str) -> (value: Option<&V>)
        ensures
            match value {
                Some(v) => self.deep_view().contains_key(key@) && v.deep_view()
                    == self.deep_view()[key@],
                None => !self.deep_view().contains_key(key@),
            },
    {
        proof {
            use_type_invariant(self);
        }
        match self.position(key) {
            Some(i) => {
                assert(self.entries@[i as int].0@ == key@);
                assert(has_key(self.entries@, key@));
                assert(key_index(self.entries@, key@) == i);
                Some(&self.entries[i].1)
            },
            None => None,
        }
    }

    /// The entries, one for each key.
    pub fn entries(&self) -> (entries: &Vec<(String, V)>)
        ensures
            forall|i: int, j: int|
                #![trigger entries@[i], entries@[j]]
                0 <= i < j < entries@.len() ==> entries@[i].0@ != entries@[j].0@,
            forall|i: int|
                0 <= i < entries@.len() ==> self.deep_view().contains_key(
                    (#[trigger] entries@[i]).0@,
                ) && self.deep_view()[entries@[i].0@] == entries@[i].1.deep_view(),
            forall|key: Seq<char>| #[trigger]
                self.deep_view().contains_key(key) ==> exists|i: int|
                    0 <= i < entries@.len() && (#[trigger] entries@[i]).0@ == key,
    {
        proof {
            use_type_invariant(self);
            let map = self.deep_view();
            assert forall|i: int| 0 <= i < self.entries@.len() implies map.contains_key(
                (#[trigger] self.entries@[i]).0@,
            ) && map[self.entries@[i].0@] == self.entries@[i].1.deep_view() by {
                let key = self.entries@[i].0@;
                assert(has_key(self.entries@, key));
                assert(key_index(self.entries@, key) == i);
            }
        }
        &self.entries
    }

    /// Puts `value` under `key`, in place of what stood there.
    pub fn insert(&mut self, key: &str, value: V)
        ensures
            final(self).deep_view() == old(self).deep_view().insert(key@, value.deep_view()),
    {
        proof {
            use_type_invariant(&*self);
        }
        let found = self.position(key);
        let mut entries: Vec<(String, V)> = Vec::new();
        std::mem::swap(&mut entries, &mut self.entries);
        let ghost before = entries@;
        let ghost index: int = match found {
            Some(i) => i as int,
            None => before.len() as int,
        };
        match found {
            Some(i) => {
                entries.set(i, (key.to_owned(), value));
            },
            None => {
                entries.push((key.to_owned(), value));
            },
        }
        proof {
            assert forall|i: int| 0 <= i < before.len() && i != index implies entries@[i]
                == #[trigger] before[i] && before[i].0@ != key@ by {
                if found is Some {
                    assert(before[index].0@ == key@);
                }
            }
            assert(no_key_twice(entries@));
            let new = entries_map(entries@);
            let expected = entries_map(before).insert(key@, value.deep_view());
            assert(entries@[index].0@ == key@);
            assert forall|k: Seq<char>| #[trigger]
                new.contains_key(k) == expected.contains_key(k) by {
                if k != key@ {
                    if has_key(before, k) {
                        let i = key_index(before, k);
                        assert(entries@[i] == before[i]);
                        assert(has_key(entries@, k));
                    }
                    if has_key(entries@, k) {
                        let i = key_index(entries@, k);
                        assert(entries@[i] == before[i]);
                        assert(has_key(before, k));
                    }
                } else {
                    assert(has_key(entries@, k));
                }
            }
            assert forall|k: Seq<char>| #[trigger] expected.contains_key(k) implies new[k]
                == expected[k] by {
                assert(new.contains_key(k));
                let i = key_index(entries@, k);
                assert(0 <= i < entries@.len() && entries@[i].0@ == k);
                if k == key@ {
                    assert(i == index);
                } else {
                    let j = key_index(before, k);
                    assert(0 <= j < before.len() && before[j].0@ == k);
                    assert(entries@[j] == before[j]);
                    assert(i == j);
                }
            }
            assert(new =~= expected);
        }
        self.entries = entries;
    }
}

} // verus!

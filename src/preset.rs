//! Presets and the keyed table of presets that an experiment carries.
use vstd::prelude::*;

use crate::parameters::ParameterValues;

verus! {

/// A value together with the key it is stored under.
#[derive(Debug)]
pub struct WithKey<T> {
    pub key: String,
    pub value: T,
}

/// A named, saved set of slider values.
#[derive(Debug, PartialEq, Eq)]
pub struct Preset {
    pub name: String,
    pub parameters: ParameterValues,
}

impl Clone for Preset {
    fn clone(&self) -> (r: Self)
        ensures
            r == *self,
    {
        Preset { name: self.name.clone(), parameters: self.parameters }
    }
}

/// No key occurs twice.
pub open spec fn keys_unique(s: Seq<WithKey<Preset>>) -> bool {
    forall|i: int, j: int|
        0 <= i < s.len() && 0 <= j < s.len() && i != j ==> s[i].key@ != s[j].key@
}

/// The map that a sequence of entries stands for.
pub open spec fn map_of(s: Seq<WithKey<Preset>>) -> Map<Seq<char>, Preset>
    decreases s.len(),
{
    if s.len() == 0 {
        Map::empty()
    } else {
        map_of(s.drop_last()).insert(s.last().key@, s.last().value)
    }
}

proof fn lemma_map_of_contains(s: Seq<WithKey<Preset>>, k: Seq<char>)
    ensures
        map_of(s).contains_key(k) <==> exists|i: int| 0 <= i < s.len() && s[i].key@ == k,
    decreases s.len(),
{
    if s.len() > 0 {
        let t = s.drop_last();
        lemma_map_of_contains(t, k);
        if map_of(s).contains_key(k) && k != s.last().key@ {
            let i = choose|i: int| 0 <= i < t.len() && t[i].key@ == k;
            assert(s[i].key@ == k);
        }
        if exists|i: int| 0 <= i < s.len() && s[i].key@ == k {
            let i = choose|i: int| 0 <= i < s.len() && s[i].key@ == k;
            if i < s.len() - 1 {
                assert(t[i].key@ == k);
            }
        }
    }
}

proof fn lemma_map_of_index(s: Seq<WithKey<Preset>>, i: int)
    requires
        keys_unique(s),
        0 <= i < s.len(),
    ensures
        map_of(s).contains_key(s[i].key@),
        map_of(s)[s[i].key@] == s[i].value,
    decreases s.len(),
{
    if i < s.len() - 1 {
        let t = s.drop_last();
        assert(t[i] == s[i]);
        assert(keys_unique(t));
        lemma_map_of_index(t, i);
        assert(s[i].key@ != s.last().key@);
    }
}

proof fn lemma_map_of_update(s: Seq<WithKey<Preset>>, i: int, e: WithKey<Preset>)
    requires
        keys_unique(s),
        0 <= i < s.len(),
        e.key@ == s[i].key@,
    ensures
        keys_unique(s.update(i, e)),
        map_of(s.update(i, e)) == map_of(s).insert(e.key@, e.value),
{
    let s2 = s.update(i, e);
    assert(keys_unique(s2));
    assert forall|k: Seq<char>| #[trigger] map_of(s2).contains_key(k) <==> map_of(s).insert(
        e.key@,
        e.value,
    ).contains_key(k) by {
        lemma_map_of_contains(s, k);
        lemma_map_of_contains(s2, k);
        if exists|j: int| 0 <= j < s.len() && s[j].key@ == k {
            let j = choose|j: int| 0 <= j < s.len() && s[j].key@ == k;
            assert(s2[j].key@ == k);
        }
        if exists|j: int| 0 <= j < s2.len() && s2[j].key@ == k {
            let j = choose|j: int| 0 <= j < s2.len() && s2[j].key@ == k;
            assert(s[j].key@ == k);
        }
    }
    assert forall|k: Seq<char>| #[trigger] map_of(s2).contains_key(k) implies map_of(s2)[k]
        == map_of(s).insert(e.key@, e.value)[k] by {
        lemma_map_of_contains(s2, k);
        let j = choose|j: int| 0 <= j < s2.len() && s2[j].key@ == k;
        lemma_map_of_index(s2, j);
        if j != i {
            assert(s[j] == s2[j]);
            lemma_map_of_index(s, j);
        }
    }
    assert(map_of(s2) =~= map_of(s).insert(e.key@, e.value));
}

/// A table of presets keyed by string, each key at most once.
#[derive(Debug)]
pub struct PresetMap {
    entries: Vec<WithKey<Preset>>,
}

impl View for PresetMap {
    type V = Map<Seq<char>, Preset>;

    closed spec fn view(&self) -> Map<Seq<char>, Preset> {
        map_of(self.entries@)
    }
}

impl PresetMap {
    #[verifier::type_invariant]
    spec fn inv(&self) -> bool {
        keys_unique(self.entries@)
    }

    pub fn new() -> (r: PresetMap)
        ensures
            r@ == Map::<Seq<char>, Preset>::empty(),
    {
        PresetMap { entries: Vec::new() }
    }

    /// The position of `key` among the entries, if it is there.
    fn position(&self, key: &String) -> (r: Option<usize>)
        ensures
            match r {
                Some(i) => i < self.entries@.len() && self.entries@[i as int].key@ == key@,
                None => forall|i: int|
                    0 <= i < self.entries@.len() ==> self.entries@[i].key@ != key@,
            },
    {
        let mut i: usize = 0;
        while i < self.entries.len()
            invariant
                i <= self.entries@.len(),
                forall|j: int| 0 <= j < i ==> self.entries@[j].key@ != key@,
            decreases self.entries@.len() - i,
        {
            if self.entries[i].key == *key {
                return Some(i);
            }
            i = i + 1;
        }
        None
    }

    /// Stores `value` under `key`, replacing what was stored there.
    pub fn insert(&mut self, key: String, value: Preset)
        ensures
            final(self)@ == old(self)@.insert(key@, value),
    {
        proof {
            use_type_invariant(&*self);
        }
        let ghost s = self.entries@;
        let position = self.position(&key);
        let mut old_map = PresetMap::new();
        std::mem::swap(self, &mut old_map);
        let mut entries = old_map.entries;
        match position {
            Some(i) => {
                let e = WithKey { key, value };
                proof {
                    lemma_map_of_update(s, i as int, e);
                }
                entries.set(i, e);
                assert(entries@ == s.update(i as int, e));
            },
            None => {
                proof {
                    lemma_map_of_contains(s, key@);
                }
                entries.push(WithKey { key, value });
                assert(entries@.drop_last() == s);
            },
        }
        *self = PresetMap { entries };
    }

    /// The preset stored under `key`.
    pub fn get(&self, key: &String) -> (r: Option<&Preset>)
        ensures
            match r {
                Some(p) => self@.contains_key(key@) && *p == self@[key@],
                None => !self@.contains_key(key@),
            },
    {
        proof {
            use_type_invariant(self);
            lemma_map_of_contains(self.entries@, key@);
        }
        match self.position(key) {
            Some(i) => {
                proof {
                    lemma_map_of_index(self.entries@, i as int);
                }
                Some(&self.entries[i].value)
            },
            None => None,
        }
    }

    pub fn contains_key(&self, key: &String) -> (r: bool)
        ensures
            r == self@.contains_key(key@),
    {
        proof {
            use_type_invariant(self);
            lemma_map_of_contains(self.entries@, key@);
        }
        self.position(key).is_some()
    }

    /// The entries, each key once, in the order they were first stored.
    pub fn entries(&self) -> (r: &Vec<WithKey<Preset>>)
        ensures
            forall|i: int|
                0 <= i < r@.len() ==> self@.contains_key(#[trigger] r@[i].key@) && self@[r@[i].key@]
                    == r@[i].value,
            forall|k: Seq<char>|
                self@.contains_key(k) ==> exists|i: int| 0 <= i < r@.len() && #[trigger] r@[i].key@ == k,
    {
        proof {
            use_type_invariant(self);
            assert forall|i: int| 0 <= i < self.entries@.len() implies self@.contains_key(
                #[trigger] self.entries@[i].key@,
            ) && self@[self.entries@[i].key@] == self.entries@[i].value by {
                lemma_map_of_index(self.entries@, i);
            }
            assert forall|k: Seq<char>| self@.contains_key(k) implies exists|i: int|
                0 <= i < self.entries@.len() && #[trigger] self.entries@[i].key@ == k by {
                lemma_map_of_contains(self.entries@, k);
            }
        }
        &self.entries
    }
}

impl Clone for PresetMap {
    fn clone(&self) -> (r: Self)
        ensures
            r@ == self@,
    {
        proof {
            use_type_invariant(self);
        }
        let mut entries: Vec<WithKey<Preset>> = Vec::new();
        let mut i: usize = 0;
        while i < self.entries.len()
            invariant
                i <= self.entries@.len(),
                entries@ == self.entries@.subrange(0, i as int),
            decreases self.entries@.len() - i,
        {
            let e = &self.entries[i];
            entries.push(WithKey { key: e.key.clone(), value: e.value.clone() });
            assert(entries@ =~= self.entries@.subrange(0, i + 1));
            i = i + 1;
        }
        assert(entries@ =~= self.entries@);
        PresetMap { entries }
    }
}

} // verus!

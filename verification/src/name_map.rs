//! A map keyed by exact, case-sensitive names, kept in insertion order.

use vstd::prelude::*;

verus! {

/// The map that pairs each key of `keys` with the value at the same position
/// of `values`.
pub open spec fn paired<V>(keys: Seq<Seq<char>>, values: Seq<V>) -> Map<Seq<char>, V> {
    Map::new(|k: Seq<char>| keys.contains(k), |k: Seq<char>| values[keys.index_of(k)])
}

/// With distinct keys, each position's key maps to that position's value.
pub proof fn lemma_paired_at<V>(keys: Seq<Seq<char>>, values: Seq<V>, i: int)
    requires
        keys.no_duplicates(),
        0 <= i < keys.len(),
    ensures
        paired(keys, values).contains_key(keys[i]),
        paired(keys, values)[keys[i]] == values[i],
{
}

/// The keys of a pairing are those of the key sequence: finitely many.
pub proof fn lemma_paired_dom<V>(keys: Seq<Seq<char>>, values: Seq<V>)
    ensures
        paired(keys, values).dom() == keys.to_set(),
        paired(keys, values).dom().finite(),
        forall|k: Seq<char>| #[trigger]
            paired(keys, values).contains_key(k) <==> exists|i: int|
                0 <= i < keys.len() && keys[i] == k,
{
    vstd::seq_lib::seq_to_set_is_finite(keys);
}

/// Appending a fresh key and its value inserts the pair.
pub proof fn lemma_paired_push<V>(keys: Seq<Seq<char>>, values: Seq<V>, k: Seq<char>, v: V)
    requires
        keys.no_duplicates(),
        keys.len() == values.len(),
        !keys.contains(k),
    ensures
        keys.push(k).no_duplicates(),
        paired(keys.push(k), values.push(v)) == paired(keys, values).insert(k, v),
{
    let keys2 = keys.push(k);
    let values2 = values.push(v);
    assert forall|q: Seq<char>| paired(keys2, values2).contains_key(q) <==> paired(
        keys,
        values,
    ).insert(k, v).contains_key(q) by {
        if q == k {
            assert(keys2[keys.len() as int] == q);
        } else if keys.contains(q) {
            assert(keys2[keys.index_of(q)] == q);
        }
    }
    assert forall|q: Seq<char>| paired(keys2, values2).contains_key(q) implies paired(
        keys2,
        values2,
    )[q] == paired(keys, values).insert(k, v)[q] by {
        let i = keys2.index_of(q);
        lemma_paired_at(keys2, values2, i);
        if q != k {
            lemma_paired_at(keys, values, i);
        }
    }
}

/// Replacing the value at a key's position inserts the pair.
pub proof fn lemma_paired_update<V>(keys: Seq<Seq<char>>, values: Seq<V>, i: int, v: V)
    requires
        keys.no_duplicates(),
        keys.len() == values.len(),
        0 <= i < keys.len(),
    ensures
        paired(keys, values.update(i, v)) == paired(keys, values).insert(keys[i], v),
{
    let values2 = values.update(i, v);
    assert forall|q: Seq<char>| paired(keys, values2).contains_key(q) implies paired(
        keys,
        values2,
    )[q] == paired(keys, values).insert(keys[i], v)[q] by {
        let j = keys.index_of(q);
        lemma_paired_at(keys, values2, j);
        lemma_paired_at(keys, values, j);
    }
}

/// One name with its value.
struct Entry<V> {
    name: String,
    value: V,
}

/// A finite map from names to values. Names are compared character by
/// character; each name occurs once, at the position where it first came in.
pub struct NameMap<V> {
    entries: Vec<Entry<V>>,
}

impl<V> View for NameMap<V> {
    type V = Map<Seq<char>, V>;

    closed spec fn view(&self) -> Map<Seq<char>, V> {
        paired(self.keys(), self.values())
    }
}

impl<V> NameMap<V> {
    #[verifier::type_invariant]
    spec fn distinct_names(self) -> bool {
        forall|i: int, j: int|
            0 <= i < self.entries.len() && 0 <= j < self.entries.len() && i != j
                ==> self.entries[i].name@ != self.entries[j].name@
    }

    /// The names, in the order in which they first came in.
    pub closed spec fn keys(&self) -> Seq<Seq<char>> {
        self.entries@.map_values(|e: Entry<V>| e.name@)
    }

    /// The values, each at the position of its name.
    pub closed spec fn values(&self) -> Seq<V> {
        self.entries@.map_values(|e: Entry<V>| e.value)
    }

    /// The map's positions and its view agree: names are distinct, and the
    /// view pairs each name with the value at its position.
    pub open spec fn ordered(&self) -> bool {
        &&& self.keys().len() == self.values().len()
        &&& self.keys().no_duplicates()
        &&& self@ == paired(self.keys(), self.values())
    }

    /// An empty map.
    pub fn new() -> (m: NameMap<V>)
        ensures
            m@ == Map::<Seq<char>, V>::empty(),
            m.keys() == Seq::<Seq<char>>::empty(),
            m.ordered(),
    {
        NameMap { entries: Vec::new() }
    }

    /// The number of names.
    pub fn len(&self) -> (n: usize)
        ensures
            n == self.keys().len(),
            self@.dom().finite(),
            n == self@.dom().len(),
            self.ordered(),
    {
        proof {
            use_type_invariant(self);
            lemma_paired_dom(self.keys(), self.values());
            self.keys().unique_seq_to_set();
        }
        self.entries.len()
    }

    /// Position of a name, if the map holds it.
    fn position(&self, name: &String) -> (r: Option<usize>)
        ensures
            match r {
                Some(i) => i < self.keys().len() && self.keys()[i as int] == name@,
                None => !self.keys().contains(name@),
            },
    {
        let mut i: usize = 0;
        while i < self.entries.len()
            invariant
                i <= self.entries.len(),
                forall|k: int| 0 <= k < i ==> self.keys()[k] != name@,
            decreases self.entries.len() - i,
        {
            if self.entries[i].name == *name {
                return Some(i);
            }
            i += 1;
        }
        None
    }

    /// The value under a name, if the map holds the name.
    pub fn get(&self, name: &str) -> (r: Option<&V>)
        ensures
            r == if self@.contains_key(name@) {
                Some(&self@[name@])
            } else {
                None
            },
    {
        proof {
            use_type_invariant(self);
        }
        let key = name.to_owned();
        match self.position(&key) {
            Some(i) => {
                proof {
                    lemma_paired_at(self.keys(), self.values(), i as int);
                }
                Some(&self.entries[i].value)
            },
            None => None,
        }
    }

    /// The name and value at a position, in insertion order; nothing past the end.
    pub fn entry(&self, index: usize) -> (r: Option<(&String, &V)>)
        ensures
            self.ordered(),
            match r {
                Some((name, value)) => {
                    &&& index < self.keys().len()
                    &&& name@ == self.keys()[index as int]
                    &&& *value == self.values()[index as int]
                },
                None => index >= self.keys().len(),
            },
    {
        proof {
            use_type_invariant(self);
        }
        if index < self.entries.len() {
            let e = &self.entries[index];
            Some((&e.name, &e.value))
        } else {
            None
        }
    }

    /// Puts a value under a name. A name already held keeps its position and
    /// takes the new value; a new name goes to the end.
    pub fn insert(&mut self, name: String, value: V)
        ensures
            final(self)@ == old(self)@.insert(name@, value),
            final(self).ordered(),
            old(self)@.contains_key(name@) ==> final(self).keys() == old(self).keys(),
            !old(self)@.contains_key(name@) ==> final(self).keys() == old(self).keys().push(name@),
    {
        proof {
            use_type_invariant(&*self);
            lemma_paired_dom(self.keys(), self.values());
        }
        let found = self.position(&name);
        let ghost keys = self.keys();
        let ghost values = self.values();
        let mut entries: Vec<Entry<V>> = Vec::new();
        core::mem::swap(&mut self.entries, &mut entries);
        match found {
            Some(i) => {
                entries[i] = Entry { name, value };
                proof {
                    lemma_paired_update(keys, values, i as int, value);
                    assert(entries@.map_values(|e: Entry<V>| e.name@) =~= keys);
                    assert(entries@.map_values(|e: Entry<V>| e.value) =~= values.update(
                        i as int,
                        value,
                    ));
                }
            },
            None => {
                entries.push(Entry { name, value });
                proof {
                    lemma_paired_push(keys, values, name@, value);
                    assert(entries@.map_values(|e: Entry<V>| e.name@) =~= keys.push(name@));
                }
            },
        }
        proof {
            let ks = entries@.map_values(|e: Entry<V>| e.name@);
            assert forall|i: int, j: int|
                0 <= i < entries.len() && 0 <= j < entries.len() && i != j implies entries[i].name@
                != entries[j].name@ by {
                assert(ks[i] != ks[j]);
            }
        }
        core::mem::swap(&mut self.entries, &mut entries);
    }
}

} // verus!

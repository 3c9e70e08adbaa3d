use vstd::prelude::*;
use vstd::string::*;

verus! {

/// Equality of two strings, character by character.
pub fn str_equal(a: &str, b: &str) -> (r: bool)
    ensures
        r == (a@ == b@),
{
    let n = a.unicode_len();
    let m = b.unicode_len();
    if n != m {
        return false;
    }
    let mut i: usize = 0;
    while i < n
        invariant
            n == a@.len(),
            m == b@.len(),
            n == m,
            i <= n,
            forall|j: int| 0 <= j < i ==> a@[j] == b@[j],
        decreases n - i,
    {
        if a.get_char(i) != b.get_char(i) {
            return false;
        }
        i = i + 1;
    }
    assert(a@ =~= b@);
    true
}

/// A flat key-value document: each key maps to at most one value.
pub struct KeyValueStore<V> {
    entries: Vec<(String, V)>,
    contents: Ghost<Map<Seq<char>, V>>,
}

impl<V> KeyValueStore<V> {
    /// The document as a map from key to value.
    pub closed spec fn view(&self) -> Map<Seq<char>, V> {
        self.contents@
    }

    /// The entries hold distinct keys and agree with the map.
    pub closed spec fn wf(&self) -> bool {
        &&& forall|i: int, j: int|
            0 <= i < j < self.entries@.len() ==> self.entries@[i].0@ != self.entries@[j].0@
        &&& forall|i: int|
            0 <= i < self.entries@.len() ==> #[trigger] self.contents@.contains_key(
                self.entries@[i].0@,
            ) && self.contents@[self.entries@[i].0@] == self.entries@[i].1
        &&& forall|k: Seq<char>|
            #[trigger] self.contents@.contains_key(k) ==> exists|i: int|
                0 <= i < self.entries@.len() && self.entries@[i].0@ == k
    }

    pub fn new() -> (r: Self)
        ensures
            r.wf(),
            r.view() == Map::<Seq<char>, V>::empty(),
    {
        KeyValueStore { entries: Vec::new(), contents: Ghost(Map::empty()) }
    }

    fn position(&self, key: &str) -> (r: Option<usize>)
        requires
            self.wf(),
        ensures
            match r {
                Some(i) => i < self.entries@.len() && self.entries@[i as int].0@ == key@,
                None => !self.view().contains_key(key@),
            },
    {
        let mut i: usize = 0;
        while i < self.entries.len()
            invariant
                self.wf(),
                i <= self.entries@.len(),
                forall|j: int| 0 <= j < i ==> self.entries@[j].0@ != key@,
            decreases self.entries@.len() - i,
        {
            if str_equal(self.entries[i].0.as_str(), key) {
                return Some(i);
            }
            i = i + 1;
        }
        None
    }

    /// Whether the document holds `key`.
    pub fn contains(&self, key: &str) -> (r: bool)
        requires
            self.wf(),
        ensures
            r == self.view().contains_key(key@),
    {
        self.position(key).is_some()
    }

    /// The value stored under `key`, if any.
    pub fn get(&self, key: &str) -> (r: Option<&V>)
        requires
            self.wf(),
        ensures
            match r {
                Some(v) => self.view().contains_key(key@) && *v == self.view()[key@],
                None => !self.view().contains_key(key@),
            },
    {
        match self.position(key) {
            Some(i) => {
                assert(self.contents@.contains_key(self.entries@[i as int].0@));
                Some(&self.entries[i].1)
            },
            None => None,
        }
    }

    /// Stores `value` under `key`, replacing what was there.
    pub fn set(&mut self, key: String, value: V)
        requires
            old(self).wf(),
        ensures
            final(self).wf(),
            final(self).view() == old(self).view().insert(key@, value),
    {
        let ghost k = key@;
        let ghost v = value;
        let ghost idx: int;
        match self.position(key.as_str()) {
            Some(i) => {
                self.entries.set(i, (key, value));
                proof {
                    idx = i as int;
                }
            },
            None => {
                proof {
                    idx = self.entries@.len() as int;
                    assert forall|j: int| 0 <= j < self.entries@.len() implies self.entries@[j].0@ != k by {
                        assert(self.contents@.contains_key(self.entries@[j].0@));
                    }
                }
                self.entries.push((key, value));
            },
        }
        assert(self.entries@[idx].0@ == k);
        assert(forall|j: int|
            0 <= j < self.entries@.len() && j != idx ==> self.entries@[j] == old(self).entries@[j]);
        assert forall|a: int, b: int| 0 <= a < b < self.entries@.len() implies self.entries@[a].0@
            != self.entries@[b].0@ by {
            if a == idx {
                assert(old(self).entries@[a].0@ == k);
            }
            if b == idx && idx < old(self).entries@.len() {
                assert(old(self).entries@[b].0@ == k);
            }
        }
        self.contents = Ghost(self.contents@.insert(k, v));
        assert(self.view() =~= old(self).view().insert(k, v));
        assert forall|j: int| 0 <= j < self.entries@.len() implies #[trigger] self.contents@.contains_key(
            self.entries@[j].0@,
        ) && self.contents@[self.entries@[j].0@] == self.entries@[j].1 by {
            if j != idx {
                assert(self.entries@[j].0@ != self.entries@[idx].0@);
                assert(old(self).contents@.contains_key(old(self).entries@[j].0@));
            }
        }
        assert forall|kk: Seq<char>| #[trigger] self.contents@.contains_key(kk) implies exists|
            j: int,
        | 0 <= j < self.entries@.len() && self.entries@[j].0@ == kk by {
            if kk != k {
                let j = choose|j: int|
                    0 <= j < old(self).entries@.len() && old(self).entries@[j].0@ == kk;
                assert(self.entries@[j].0@ == kk);
            } else {
                assert(self.entries@[idx].0@ == kk);
            }
        }
    }

    /// Removes `key`; returns whether it was present.
    pub fn delete(&mut self, key: &str) -> (r: bool)
        requires
            old(self).wf(),
        ensures
            final(self).wf(),
            r == old(self).view().contains_key(key@),
            final(self).view() == old(self).view().remove(key@),
    {
        match self.position(key) {
            Some(i) => {
                let ghost old_entries = self.entries@;
                self.entries.remove(i);
                self.contents = Ghost(self.contents@.remove(key@));
                assert forall|kk: Seq<char>| #[trigger] self.contents@.contains_key(kk) implies exists|
                    j: int,
                | 0 <= j < self.entries@.len() && self.entries@[j].0@ == kk by {
                    let j = choose|j: int|
                        0 <= j < old_entries.len() && old_entries[j].0@ == kk;
                    if j < i {
                        assert(self.entries@[j].0@ == kk);
                    } else {
                        assert(self.entries@[j - 1].0@ == kk);
                    }
                }
                true
            },
            None => {
                assert(self.view() =~= old(self).view().remove(key@));
                false
            },
        }
    }

    /// Removes every entry.
    pub fn clear(&mut self)
        ensures
            final(self).wf(),
            final(self).view() == Map::<Seq<char>, V>::empty(),
    {
        self.entries = Vec::new();
        self.contents = Ghost(Map::empty());
    }
}

/// Stores the geometry of the window labelled `window_label`.
pub fn save_window_state<V>(store: &mut KeyValueStore<V>, window_label: String, config: V)
    requires
        old(store).wf(),
    ensures
        final(store).wf(),
        final(store)@ == old(store)@.insert(window_label@, config),
{
    store.set(window_label, config);
}

/// The stored geometry of the window labelled `window_label`, if any.
pub fn load_window_state<'a, V>(store: &'a KeyValueStore<V>, window_label: &str) -> (r: Option<
    &'a V,
>)
    requires
        store.wf(),
    ensures
        r is Some <==> store@.contains_key(window_label@),
        r matches Some(v) ==> *v == store@[window_label@],
{
    store.get(window_label)
}

/// Saving a value under a key and then loading that key gives the same value back, as
/// `set` and `save_window_state` leave the map with the key inserted and `get` and
/// `load_window_state` read it.
pub proof fn lemma_save_then_load<V>(m: Map<Seq<char>, V>, key: Seq<char>, value: V)
    ensures
        m.insert(key, value).contains_key(key),
        m.insert(key, value)[key] == value,
{
}

/// Once a key is deleted a load of it finds nothing.
pub proof fn lemma_delete_then_absent<V>(m: Map<Seq<char>, V>, key: Seq<char>)
    ensures
        !m.remove(key).contains_key(key),
{
}

} // verus!

//! A map from names to values that can also be listed.
//!
//! What is learned about applications and subscribers is kept by name and written out
//! from time to time, so it has to be both looked up and walked through. Names are few, so
//! the entries stand in a plain list; a name that stands twice counts with its last entry.

use crate::text;
use vstd::prelude::*;

verus! {

/// The map that a list of entries stands for: later entries win.
pub open spec fn entries_map<V>(entries: Seq<(String, V)>) -> Map<Seq<char>, V>
    decreases entries.len(),
{
    if entries.len() == 0 {
        Map::empty()
    } else {
        entries_map(entries.drop_last()).insert(entries.last().0@, entries.last().1)
    }
}

proof fn lemma_entries_lookup<V>(entries: Seq<(String, V)>, name: Seq<char>)
    ensures
        entries_map(entries).contains_key(name) <==> exists|i: int|
            0 <= i < entries.len() && (#[trigger] entries[i]).0@ == name,
        forall|i: int|
            0 <= i < entries.len() && (#[trigger] entries[i]).0@ == name && (forall|j: int|
                i < j < entries.len() ==> (#[trigger] entries[j]).0@ != name) ==> entries_map(
                entries,
            )[name] == entries[i].1,
    decreases entries.len(),
{
    if entries.len() > 0 {
        let shorter = entries.drop_last();
        lemma_entries_lookup(shorter, name);
        let last = entries.len() - 1;
        if entries[last].0@ != name {
            if exists|i: int| 0 <= i < entries.len() && (#[trigger] entries[i]).0@ == name {
                let i = choose|i: int| 0 <= i < entries.len() && (#[trigger] entries[i]).0@ == name;
                assert(shorter[i].0@ == name);
            }
            if exists|i: int| 0 <= i < shorter.len() && (#[trigger] shorter[i]).0@ == name {
                let i = choose|i: int| 0 <= i < shorter.len() && (#[trigger] shorter[i]).0@ == name;
                assert(entries[i].0@ == name);
            }
            assert forall|i: int|
                0 <= i < entries.len() && (#[trigger] entries[i]).0@ == name && (forall|j: int|
                    i < j < entries.len() ==> (#[trigger] entries[j]).0@
                        != name) implies entries_map(entries)[name] == entries[i].1 by {
                assert(shorter[i].0@ == name);
                assert forall|j: int| i < j < shorter.len() implies (#[trigger] shorter[j]).0@
                    != name by {
                    assert(entries[j].0@ != name);
                }
            }
        } else {
            assert forall|i: int|
                0 <= i < entries.len() && (#[trigger] entries[i]).0@ == name && (forall|j: int|
                    i < j < entries.len() ==> (#[trigger] entries[j]).0@
                        != name) implies entries_map(entries)[name] == entries[i].1 by {
                if i < last {
                    assert(entries[last].0@ != name);
                }
            }
        }
    }
}

proof fn lemma_entries_remove<V>(entries: Seq<(String, V)>, i: int)
    requires
        0 <= i < entries.len(),
    ensures
        entries_map(entries.remove(i)).remove(entries[i].0@) == entries_map(entries).remove(
            entries[i].0@,
        ),
    decreases entries.len(),
{
    let name = entries[i].0@;
    if i == entries.len() - 1 {
        assert(entries.remove(i) =~= entries.drop_last());
        assert(entries_map(entries.remove(i)).remove(name) =~= entries_map(entries).remove(name));
    } else {
        let shorter = entries.drop_last();
        lemma_entries_remove(shorter, i);
        let removed = entries.remove(i);
        assert(removed.drop_last() =~= shorter.remove(i));
        assert(removed.last() == entries.last());
        let rest = entries_map(shorter.remove(i));
        let all = entries_map(shorter);
        let (key, value) = (entries.last().0@, entries.last().1);
        assert(entries_map(removed) == rest.insert(key, value));
        assert(entries_map(entries) == all.insert(key, value));
        let left = rest.insert(key, value).remove(name);
        let right = all.insert(key, value).remove(name);
        assert forall|x: Seq<char>| #[trigger] left.dom().contains(x) == right.dom().contains(
            x,
        ) by {
            assert(rest.remove(name).dom().contains(x) == all.remove(name).dom().contains(x));
        }
        assert forall|x: Seq<char>| #[trigger] left.dom().contains(x) implies left[x]
            == right[x] by {
            assert(rest.remove(name)[x] == all.remove(name)[x]);
        }
        assert(left =~= right);
    }
}

/// Values by name.
pub struct NameMap<V> {
    entries: Vec<(String, V)>,
}

impl<V> View for NameMap<V> {
    type V = Map<Seq<char>, V>;

    closed spec fn view(&self) -> Map<Seq<char>, V> {
        entries_map(self.entries@)
    }
}

impl<V> NameMap<V> {
    /// No names.
    pub fn new() -> (none: Self)
        ensures
            none@ == Map::<Seq<char>, V>::empty(),
    {
        NameMap { entries: Vec::new() }
    }

    /// Whether there are no names at all.
    pub fn is_empty(&self) -> (empty: bool)
        ensures
            empty == (self@ == Map::<Seq<char>, V>::empty()),
    {
        let empty = self.entries.len() == 0;
        proof {
            if !empty {
                assert(self@.contains_key(self.entries@.last().0@));
            }
        }
        empty
    }

    /// Where the entry that counts for `name` stands.
    fn position(&self, name: &str) -> (at: Option<usize>)
        ensures
            match at {
                Some(i) => {
                    &&& i < self.entries.len()
                    &&& self.entries[i as int].0@ == name@
                    &&& self@.contains_key(name@)
                    &&& self@[name@] == self.entries[i as int].1
                },
                None => {
                    &&& !self@.contains_key(name@)
                    &&& forall|j: int|
                        0 <= j < self.entries.len() ==> (#[trigger] self.entries[j]).0@ != name@
                },
            },
    {
        proof {
            lemma_entries_lookup(self.entries@, name@);
        }
        let mut i: usize = self.entries.len();
        while i > 0
            invariant
                i <= self.entries.len(),
                forall|j: int|
                    i <= j < self.entries.len() ==> (#[trigger] self.entries[j]).0@ != name@,
                forall|k: int|
                    0 <= k < self.entries.len() && (#[trigger] self.entries[k]).0@ == name@ && (
                    forall|j: int|
                        k < j < self.entries.len() ==> (#[trigger] self.entries[j]).0@ != name@)
                        ==> self@[name@] == self.entries[k].1,
                self@.contains_key(name@) <==> exists|k: int|
                    0 <= k < self.entries.len() && (#[trigger] self.entries[k]).0@ == name@,
            decreases i,
        {
            i -= 1;
            if text::same_text(self.entries[i].0.as_str(), name) {
                return Some(i);
            }
        }
        None
    }

    /// The value under `name`.
    pub fn get(&self, name: &str) -> (value: Option<&V>)
        ensures
            match value {
                Some(value) => self@.contains_key(name@) && *value == self@[name@],
                None => !self@.contains_key(name@),
            },
    {
        match self.position(name) {
            Some(i) => Some(&self.entries[i].1),
            None => None,
        }
    }

    /// Whether there is a value under `name`.
    pub fn contains_key(&self, name: &str) -> (found: bool)
        ensures
            found == self@.contains_key(name@),
    {
        self.position(name).is_some()
    }

    /// Takes `name` and its value out.
    pub fn remove(&mut self, name: &str)
        ensures
            final(self)@ == old(self)@.remove(name@),
    {
        let mut i: usize = self.entries.len();
        while i > 0
            invariant
                i <= self.entries.len(),
                self@.remove(name@) == old(self)@.remove(name@),
                forall|j: int|
                    i <= j < self.entries.len() ==> (#[trigger] self.entries[j]).0@ != name@,
            decreases i,
        {
            i -= 1;
            if text::same_text(self.entries[i].0.as_str(), name) {
                proof {
                    lemma_entries_remove(self.entries@, i as int);
                }
                let ghost before = self.entries@;
                let _ = self.entries.remove(i);
                assert forall|j: int| i <= j < self.entries.len() implies (
                #[trigger] self.entries[j]).0@ != name@ by {
                    assert(before[j + 1].0@ != name@);
                }
            }
        }
        proof {
            lemma_entries_lookup(self.entries@, name@);
            assert(self@ =~= self@.remove(name@));
        }
    }

    /// Puts `value` under `name`, in place of what was there before.
    pub fn insert(&mut self, name: String, value: V)
        ensures
            final(self)@ == old(self)@.insert(name@, value),
    {
        self.remove(name.as_str());
        let ghost before = self.entries@;
        self.entries.push((name, value));
        proof {
            assert(self.entries@.drop_last() =~= before);
            assert(self@ =~= old(self)@.insert(name@, value));
        }
    }

    /// Puts everything that `other` holds in, in place of what stood under the same names.
    pub fn extend(&mut self, other: NameMap<V>)
        ensures
            final(self)@ == old(self)@.union_prefer_right(other@),
    {
        let mut incoming = other.entries;
        let ghost all = incoming@;
        let ghost mut taken: int = 0;
        assert(all.skip(0) =~= all);
        assert(self@ =~= old(self)@.union_prefer_right(entries_map(all.take(0))));
        while incoming.len() > 0
            invariant
                0 <= taken <= all.len(),
                incoming@ == all.skip(taken),
                self@ == old(self)@.union_prefer_right(entries_map(all.take(taken))),
            decreases incoming.len(),
        {
            let ghost rest = incoming@;
            let (name, value) = incoming.remove(0);
            let ghost before = self@;
            self.insert(name, value);
            proof {
                assert(rest[0] == all[taken]);
                assert(all.take(taken + 1).drop_last() =~= all.take(taken));
                assert(all.take(taken + 1).last() == all[taken]);
                taken = taken + 1;
                assert(incoming@ =~= all.skip(taken));
                assert(self@ =~= old(self)@.union_prefer_right(entries_map(all.take(taken))));
            }
        }
        assert(all.take(taken) =~= all);
    }

    /// How many entries stand in the list.
    pub fn len(&self) -> (n: usize)
        ensures
            n == self.listed().len(),
    {
        self.entries.len()
    }

    /// The entries as they are listed.
    pub closed spec fn listed(&self) -> Seq<(String, V)> {
        self.entries@
    }

    /// The entry at `i` in the list.
    pub fn entry(&self, i: usize) -> (entry: &(String, V))
        requires
            i < self.listed().len(),
        ensures
            *entry == self.listed()[i as int],
    {
        &self.entries[i]
    }

    /// Every name in the map is listed, and only those are.
    pub proof fn lemma_listed(&self, name: Seq<char>)
        ensures
            self@.contains_key(name) <==> exists|i: int|
                0 <= i < self.listed().len() && (#[trigger] self.listed()[i]).0@ == name,
    {
        lemma_entries_lookup(self.entries@, name);
        assert(self.listed() == self.entries@);
        if self@.contains_key(name) {
            let i = choose|i: int|
                0 <= i < self.entries@.len() && (#[trigger] self.entries@[i]).0@ == name;
            assert(self.listed()[i].0@ == name);
        }
    }
}

} // verus!

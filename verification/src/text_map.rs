//! A small map from names to values, kept as a list in which no name occurs
//! twice.
//!
//! The map is the model: `view` folds the list into a `Map` from the
//! characters of a name to the value stored under it.

use vstd::prelude::*;
use vstd::string::StringExecFns;

verus! {

/// The map that a list of entries stands for. A later entry wins over an
/// earlier one of the same name.
pub open spec fn entries_map<V>(entries: Seq<(String, V)>) -> Map<Seq<char>, V>
    decreases entries.len(),
{
    if entries.len() == 0 {
        Map::empty()
    } else {
        entries_map(entries.drop_last()).insert(entries.last().0@, entries.last().1)
    }
}

/// No two entries of the list carry the same name.
pub open spec fn distinct_names<V>(entries: Seq<(String, V)>) -> bool {
    forall|i: int, j: int|
        0 <= i < j < entries.len() ==> (#[trigger] entries[i]).0@ != (#[trigger] entries[j]).0@
}

/// A name that no entry carries is not in the map.
pub proof fn lemma_name_absent<V>(entries: Seq<(String, V)>, name: Seq<char>)
    requires
        forall|i: int| 0 <= i < entries.len() ==> (#[trigger] entries[i]).0@ != name,
    ensures
        !entries_map(entries).contains_key(name),
    decreases entries.len(),
{
    if entries.len() > 0 {
        let front = entries.drop_last();
        assert forall|i: int| 0 <= i < front.len() implies (#[trigger] front[i]).0@ != name by {
            assert(front[i] == entries[i]);
        }
        lemma_name_absent(front, name);
        assert(entries.last() == entries[entries.len() - 1]);
    }
}

/// In a list without repeated names, every entry is what the map holds under
/// its name.
pub proof fn lemma_entry_present<V>(entries: Seq<(String, V)>, at: int)
    requires
        distinct_names(entries),
        0 <= at < entries.len(),
    ensures
        entries_map(entries).contains_key(entries[at].0@),
        entries_map(entries)[entries[at].0@] == entries[at].1,
    decreases entries.len(),
{
    let front = entries.drop_last();
    if at < entries.len() - 1 {
        assert forall|i: int, j: int| 0 <= i < j < front.len() implies (#[trigger] front[i]).0@ != (
        #[trigger] front[j]).0@ by {
            assert(front[i] == entries[i]);
            assert(front[j] == entries[j]);
        }
        lemma_entry_present(front, at);
        assert(front[at] == entries[at]);
        assert(entries.last() == entries[entries.len() - 1]);
    }
}

/// Replacing the entry that carries a name by another of the same name is
/// an insertion into the map, and repeats no name.
pub proof fn lemma_entry_replaced<V>(entries: Seq<(String, V)>, at: int, name: String, value: V)
    requires
        distinct_names(entries),
        0 <= at < entries.len(),
        name@ == entries[at].0@,
    ensures
        distinct_names(entries.update(at, (name, value))),
        entries_map(entries.update(at, (name, value))) == entries_map(entries).insert(
            name@,
            value,
        ),
    decreases entries.len(),
{
    let changed = entries.update(at, (name, value));
    let front = entries.drop_last();
    assert forall|i: int, j: int| 0 <= i < j < changed.len() implies (#[trigger] changed[i]).0@ != (
    #[trigger] changed[j]).0@ by {
        assert(changed[i].0@ == entries[i].0@);
        assert(changed[j].0@ == entries[j].0@);
    }
    if at == entries.len() - 1 {
        assert(changed.drop_last() =~= front);
        assert(entries_map(changed) =~= entries_map(entries).insert(name@, value));
    } else {
        assert forall|i: int, j: int| 0 <= i < j < front.len() implies (#[trigger] front[i]).0@ != (
        #[trigger] front[j]).0@ by {
            assert(front[i] == entries[i]);
            assert(front[j] == entries[j]);
        }
        assert(front[at] == entries[at]);
        lemma_entry_replaced(front, at, name, value);
        assert(changed.drop_last() =~= front.update(at, (name, value)));
        assert(changed.last() == entries.last());
        assert(entries.last() == entries[entries.len() - 1]);
        assert(entries.last().0@ != name@);
        assert(entries_map(changed) =~= entries_map(entries).insert(name@, value));
    }
}

/// Appending an entry is an insertion into the map; it repeats no name where
/// the name is new.
pub proof fn lemma_entry_appended<V>(entries: Seq<(String, V)>, name: String, value: V)
    ensures
        entries_map(entries.push((name, value))) == entries_map(entries).insert(name@, value),
        distinct_names(entries) && !entries_map(entries).contains_key(name@) ==> distinct_names(
            entries.push((name, value)),
        ),
{
    let grown = entries.push((name, value));
    assert(grown.drop_last() =~= entries);
    if distinct_names(entries) && !entries_map(entries).contains_key(name@) {
        assert forall|i: int, j: int| 0 <= i < j < grown.len() implies (#[trigger] grown[i]).0@ != (
        #[trigger] grown[j]).0@ by {
            if j == entries.len() {
                lemma_entry_present(entries, i);
            }
        }
    }
}

/// A map from names to values of type `V`.
#[derive(Debug)]
pub struct TextMap<V> {
    entries: Vec<(String, V)>,
}

impl<V> View for TextMap<V> {
    type V = Map<Seq<char>, V>;

    closed spec fn view(&self) -> Map<Seq<char>, V> {
        entries_map(self.entries@)
    }
}

impl<V> TextMap<V> {
    #[verifier::type_invariant]
    spec fn names_are_distinct(self) -> bool {
        distinct_names(self.entries@)
    }

    /// A map without entries.
    pub fn new() -> (made: Self)
        ensures
            made@ == Map::<Seq<char>, V>::empty(),
    {
        TextMap { entries: Vec::new() }
    }

    /// Where the entry of the given name stands in the list.
    fn position(&self, name: &str) -> (found: Option<usize>)
        ensures
            match found {
                Some(at) => at < self.entries@.len() && self.entries@[at as int].0@ == name@,
                None => forall|i: int|
                    0 <= i < self.entries@.len() ==> (#[trigger] self.entries@[i]).0@ != name@,
            },
    {
        let wanted = String::from_str(name);
        let mut at: usize = 0;
        while at < self.entries.len()
            invariant
                at <= self.entries@.len(),
                wanted@ == name@,
                forall|i: int| 0 <= i < at ==> (#[trigger] self.entries@[i]).0@ != name@,
            decreases self.entries@.len() - at,
        {
            if self.entries[at].0 == wanted {
                return Some(at);
            }
            at += 1;
        }
        None
    }

    /// The value stored under a name, if there is one.
    pub fn get(&self, name: &str) -> (found: Option<&V>)
        ensures
            found == (if self@.contains_key(name@) {
                Some(&self@[name@])
            } else {
                None
            }),
    {
        proof {
            use_type_invariant(self);
        }
        match self.position(name) {
            Some(at) => {
                proof {
                    lemma_entry_present(self.entries@, at as int);
                }
                Some(&self.entries[at].1)
            },
            None => {
                proof {
                    lemma_name_absent(self.entries@, name@);
                }
                None
            },
        }
    }

    /// Stores a value under a name, in place of the one that was there.
    pub fn insert(&mut self, name: String, value: V)
        ensures
            final(self)@ == old(self)@.insert(name@, value),
    {
        proof {
            use_type_invariant(&*self);
        }
        let found = self.position(name.as_str());
        let mut entries: Vec<(String, V)> = Vec::new();
        core::mem::swap(&mut self.entries, &mut entries);
        match found {
            Some(at) => {
                proof {
                    lemma_entry_replaced(entries@, at as int, name, value);
                }
                entries.set(at, (name, value));
            },
            None => {
                proof {
                    lemma_name_absent(entries@, name@);
                    lemma_entry_appended(entries@, name, value);
                }
                entries.push((name, value));
            },
        }
        self.entries = entries;
    }

    /// Removes every entry.
    pub fn clear(&mut self)
        ensures
            final(self)@ == Map::<Seq<char>, V>::empty(),
    {
        self.entries = Vec::new();
    }

    /// The entries as a list: no name occurs twice, and folded together they
    /// are the map.
    pub fn entries(&self) -> (listed: &Vec<(String, V)>)
        ensures
            distinct_names(listed@),
            entries_map(listed@) == self@,
    {
        proof {
            use_type_invariant(self);
        }
        &self.entries
    }
}

} // verus!

//! Operations on definition maps.

use vstd::prelude::*;
use crate::data::{Data, DataModel, Defs, data_view, entries_view};

verus! {

/// The place of the last entry for `name`, or -1 if there is none.
pub open spec fn last_index_of(entries: Seq<(String, Data)>, name: Seq<char>) -> int
    decreases entries.len(),
{
    if entries.len() == 0 {
        -1
    } else if entries.last().0@ == name {
        entries.len() - 1
    } else {
        last_index_of(entries.drop_last(), name)
    }
}

/// The last entry for a name is the one that the map shows.
pub proof fn lemma_last_index_of(entries: Seq<(String, Data)>, name: Seq<char>)
    ensures
        -1 <= last_index_of(entries, name) < entries.len(),
        last_index_of(entries, name) >= 0 <==> entries_view(entries).contains_key(name),
        last_index_of(entries, name) >= 0 ==> {
            &&& entries[last_index_of(entries, name)].0@ == name
            &&& entries_view(entries)[name] == data_view(entries[last_index_of(entries, name)].1)
        },
        forall|j: int|
            last_index_of(entries, name) < j < entries.len() ==> (#[trigger] entries[j]).0@
                != name,
    decreases entries.len(),
{
    if entries.len() > 0 {
        lemma_last_index_of(entries.drop_last(), name);
        if entries.last().0@ != name {
            assert forall|j: int| last_index_of(entries, name) < j < entries.len() implies (
            #[trigger] entries[j]).0@ != name by {
                if j < entries.len() - 1 {
                    assert(entries.drop_last()[j] == entries[j]);
                }
            }
        }
    }
}

/// Replacing the value of the last entry for a name is inserting into the map.
pub proof fn lemma_entries_update(entries: Seq<(String, Data)>, i: int, entry: (String, Data))
    requires
        0 <= i < entries.len(),
        i == last_index_of(entries, entry.0@),
    ensures
        entries_view(entries.update(i, entry)) == entries_view(entries).insert(
            entry.0@,
            data_view(entry.1),
        ),
    decreases entries.len(),
{
    let updated = entries.update(i, entry);
    lemma_last_index_of(entries, entry.0@);
    if i == entries.len() - 1 {
        assert(updated.drop_last() == entries.drop_last());
        assert(entries_view(updated) =~= entries_view(entries).insert(
            entry.0@,
            data_view(entry.1),
        ));
    } else {
        assert(entries.last().0@ != entry.0@);
        lemma_entries_update(entries.drop_last(), i, entry);
        assert(updated.drop_last() == entries.drop_last().update(i, entry));
        assert(updated.last() == entries.last());
        assert(entries_view(updated) =~= entries_view(entries).insert(
            entry.0@,
            data_view(entry.1),
        ));
    }
}

impl Defs {
    /// A map without entries.
    pub fn new() -> (res: Defs)
        ensures
            res@ == Map::<Seq<char>, DataModel>::empty(),
    {
        Defs { entries: Vec::new() }
    }

    fn find(&self, name: &String) -> (res: Option<usize>)
        ensures
            match res {
                Some(i) => i == last_index_of(self.entries@, name@),
                None => last_index_of(self.entries@, name@) == -1,
            },
    {
        let mut i: usize = self.entries.len();
        while i > 0
            invariant
                i <= self.entries.len(),
                forall|j: int|
                    i <= j < self.entries.len() ==> (#[trigger] self.entries@[j]).0@ != name@,
            decreases i,
        {
            i -= 1;
            if self.entries[i].0 == *name {
                proof {
                    lemma_last_index_of(self.entries@, name@);
                }
                return Some(i);
            }
        }
        proof {
            lemma_last_index_of(self.entries@, name@);
        }
        None
    }

    /// Whether the map defines `name`.
    pub fn contains_key(&self, name: &String) -> (res: bool)
        ensures
            res == self@.contains_key(name@),
    {
        proof {
            lemma_last_index_of(self.entries@, name@);
        }
        self.find(name).is_some()
    }

    /// The value that the map gives to `name`.
    pub fn get(&self, name: &String) -> (res: Option<&Data>)
        ensures
            res is Some <==> self@.contains_key(name@),
            res matches Some(data) ==> data@ == self@[name@],
    {
        proof {
            lemma_last_index_of(self.entries@, name@);
        }
        match self.find(name) {
            Some(i) => Some(&self.entries[i].1),
            None => None,
        }
    }

    /// Binds `name` to `value`, in place of what it was bound to before.
    pub fn insert(&mut self, name: String, value: Data)
        ensures
            final(self)@ == old(self)@.insert(name@, value@),
    {
        proof {
            lemma_last_index_of(self.entries@, name@);
        }
        match self.find(&name) {
            Some(i) => {
                proof {
                    lemma_entries_update(self.entries@, i as int, (name, value));
                }
                self.entries.set(i, (name, value));
            },
            None => {
                proof {
                    assert(self.entries@.push((name, value)).drop_last() == self.entries@);
                }
                self.entries.push((name, value));
            },
        }
    }

    /// The number of entries that the list holds.
    pub fn len(&self) -> (res: usize)
        ensures
            res == self.entries@.len(),
    {
        self.entries.len()
    }

    /// This map with every entry of `top` laid over it.
    pub fn overlaid(&self, top: &Defs) -> (res: Defs)
        ensures
            res@ == self@.union_prefer_right(top@),
    {
        let mut out = self.clone();
        let mut i: usize = 0;
        assert(top.entries@.take(0) =~= Seq::empty());
        assert(out@ =~= self@.union_prefer_right(entries_view(top.entries@.take(0))));
        while i < top.entries.len()
            invariant
                i <= top.entries.len(),
                out@ == self@.union_prefer_right(entries_view(top.entries@.take(i as int))),
            decreases top.entries.len() - i,
        {
            let name = top.entries[i].0.clone();
            let value = top.entries[i].1.clone();
            proof {
                assert(top.entries@.take(i + 1).drop_last() == top.entries@.take(i as int));
                assert(out@.insert(name@, value@) =~= self@.union_prefer_right(
                    entries_view(top.entries@.take(i + 1)),
                ));
            }
            out.insert(name, value);
            i += 1;
        }
        assert(top.entries@.take(i as int) == top.entries@);
        out
    }
}

} // verus!

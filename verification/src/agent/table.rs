//! A small table from names to values that keeps the order in which names
//! first came in. No name occurs twice: a value that comes in under a name
//! already present takes the place of the earlier one.

use crate::text::same_text;
use vstd::prelude::*;

verus! {

/// Whether some entry goes by the name `key`.
pub open spec fn has_key<W>(entries: Seq<(Seq<char>, W)>, key: Seq<char>) -> bool {
    exists|i: int| 0 <= i < entries.len() && (#[trigger] entries[i]).0 == key
}

/// Whether no two entries go by the same name.
pub open spec fn unique_keys<W>(entries: Seq<(Seq<char>, W)>) -> bool {
    forall|i: int, j: int|
        0 <= i < j < entries.len() ==> (#[trigger] entries[i]).0 != (#[trigger] entries[j]).0
}

/// The entries after `value` came in under `key`: it replaces the entry of
/// that name where it stands, or goes to the end if the name is new.
pub open spec fn inserted<W>(entries: Seq<(Seq<char>, W)>, key: Seq<char>, value: W) -> Seq<
    (Seq<char>, W),
> {
    if has_key(entries, key) {
        Seq::new(
            entries.len(),
            |i: int|
                if entries[i].0 == key {
                    (key, value)
                } else {
                    entries[i]
                },
        )
    } else {
        entries.push((key, value))
    }
}

/// Inserting keeps names unique.
pub proof fn lemma_inserted_unique<W>(entries: Seq<(Seq<char>, W)>, key: Seq<char>, value: W)
    requires
        unique_keys(entries),
    ensures
        unique_keys(inserted(entries, key, value)),
        has_key(inserted(entries, key, value), key),
{
    let after = inserted(entries, key, value);
    if has_key(entries, key) {
        let i = choose|i: int| 0 <= i < entries.len() && (#[trigger] entries[i]).0 == key;
        assert(after[i].0 == key);
    } else {
        assert(after[entries.len() as int].0 == key);
    }
}

/// A table from names to values, in the order in which the names came in.
#[derive(Debug)]
pub struct Table<V> {
    entries: Vec<(String, V)>,
}

impl<V: DeepView> DeepView for Table<V> {
    type V = Seq<(Seq<char>, V::V)>;

    closed spec fn deep_view(&self) -> Seq<(Seq<char>, V::V)> {
        self.entries.deep_view()
    }
}

impl<V: DeepView> Table<V> {
    /// No name occurs twice.
    pub open spec fn wf(&self) -> bool {
        unique_keys(self.deep_view())
    }

    /// The entries as they are stored.
    pub closed spec fn spec_entries(&self) -> Seq<(String, V)> {
        self.entries@
    }

    /// An empty table.
    pub fn new() -> (table: Self)
        ensures
            table.wf(),
            table.deep_view() == Seq::<(Seq<char>, V::V)>::empty(),
    {
        let table = Table { entries: Vec::new() };
        table
    }

    /// Number of entries.
    pub fn len(&self) -> (len: usize)
        ensures
            len == self.deep_view().len(),
    {
        self.entries.len()
    }

    /// Whether the table has no entry.
    pub fn is_empty(&self) -> (empty: bool)
        ensures
            empty == (self.deep_view().len() == 0),
    {
        self.entries.len() == 0
    }

    /// Whether some entry goes by the name `key`.
    pub fn contains_key(&self, key: &str) -> (found: bool)
        ensures
            found == has_key(self.deep_view(), key@),
    {
        let mut i: usize = 0;
        while i < self.entries.len()
            invariant
                i <= self.entries.len(),
                forall|j: int| 0 <= j < i ==> (#[trigger] self.deep_view()[j]).0 != key@,
            decreases self.entries.len() - i,
        {
            if same_text(self.entries[i].0.as_str(), key) {
                assert(self.deep_view()[i as int].0 == key@);
                return true;
            }
            i = i + 1;
        }
        false
    }

    /// Puts `value` under the name `key`: in the place of the entry of
    /// that name, or at the end if the name is new.
    pub fn insert(&mut self, key: String, value: V)
        requires
            old(self).wf(),
        ensures
            final(self).wf(),
            final(self).deep_view() == inserted(old(self).deep_view(), key@, value.deep_view()),
    {
        proof {
            lemma_inserted_unique(self.deep_view(), key@, value.deep_view());
        }
        let mut i: usize = 0;
        while i < self.entries.len()
            invariant
                *self == *old(self),
                old(self).wf(),
                unique_keys(inserted(old(self).deep_view(), key@, value.deep_view())),
                i <= self.entries.len(),
                forall|j: int| 0 <= j < i ==> (#[trigger] self.deep_view()[j]).0 != key@,
            decreases self.entries.len() - i,
        {
            if same_text(self.entries[i].0.as_str(), key.as_str()) {
                self.entries.set(i, (key, value));
                assert(self.deep_view() =~= inserted(
                    old(self).deep_view(),
                    key@,
                    value.deep_view(),
                )) by {
                    assert forall|j: int| 0 <= j < old(self).deep_view().len() implies (
                    #[trigger] self.deep_view()[j]) == inserted(
                        old(self).deep_view(),
                        key@,
                        value.deep_view(),
                    )[j] by {
                        if j != i {
                            assert(old(self).deep_view()[j].0 != old(self).deep_view()[i as int].0);
                        }
                    }
                }
                return ;
            }
            i = i + 1;
        }
        self.entries.push((key, value));
        assert(self.deep_view() =~= old(self).deep_view().push((key@, value.deep_view())));
    }

    /// The entries in order, for reading.
    pub fn entries(&self) -> (entries: &Vec<(String, V)>)
        ensures
            entries.deep_view() == self.deep_view(),
    {
        &self.entries
    }

    /// The values in order, without their names.
    pub fn into_values(self) -> (values: Vec<V>)
        ensures
            values.deep_view() == Seq::new(
                self.deep_view().len(),
                |i: int| self.deep_view()[i].1,
            ),
    {
        let mut entries = self.entries;
        let ghost all = entries.deep_view();
        let mut values: Vec<V> = Vec::new();
        let mut rest: Vec<(String, V)> = Vec::new();
        while entries.len() > 0
            invariant
                entries.len() <= all.len(),
                entries.deep_view() == all.take(entries.len() as int),
                rest.len() + entries.len() == all.len(),
                rest.deep_view() == Seq::new(
                    rest.len() as nat,
                    |i: int| all[all.len() - 1 - i],
                ),
            decreases entries.len(),
        {
            let ghost before = entries.deep_view();
            let ghost moved = rest.deep_view();
            let last = entries.pop().unwrap();
            assert(last.deep_view() == before[before.len() - 1]);
            rest.push(last);
            assert(rest.deep_view() =~= moved.push(all[all.len() - rest.len()]));
            assert(rest.deep_view() =~= Seq::new(
                rest.len() as nat,
                |i: int| all[all.len() - 1 - i],
            ));
        }
        while rest.len() > 0
            invariant
                rest.len() + values.len() == all.len(),
                rest.deep_view() == Seq::new(
                    rest.len() as nat,
                    |i: int| all[all.len() - 1 - i],
                ),
                values.deep_view() == Seq::new(values.len() as nat, |i: int| all[i].1),
            decreases rest.len(),
        {
            let ghost before = rest.deep_view();
            let ghost done = values.deep_view();
            let (_, value) = rest.pop().unwrap();
            assert(rest.deep_view() =~= before.drop_last());
            assert(value.deep_view() == before[before.len() - 1].1);
            values.push(value);
            assert(rest.deep_view() =~= Seq::new(
                rest.len() as nat,
                |i: int| all[all.len() - 1 - i],
            ));
            assert(values.deep_view() =~= done.push(all[values.len() - 1].1));
        }
        values
    }
}

} // verus!

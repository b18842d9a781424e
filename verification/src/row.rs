//! The raw content of one table row: a map from field names to byte values.

use crate::text::{bytes_clone, bytes_eq, str_eq};
use vstd::prelude::*;

verus! {

/// The field names of a list of entries, in order.
pub open spec fn names(entries: Seq<(String, Vec<u8>)>) -> Seq<Seq<char>> {
    entries.map_values(|e: (String, Vec<u8>)| e.0@)
}

/// The map that a list of entries with distinct names stands for.
pub open spec fn entries_map(entries: Seq<(String, Vec<u8>)>) -> Map<Seq<char>, Seq<u8>> {
    Map::new(
        |name: Seq<char>| names(entries).contains(name),
        |name: Seq<char>| entries[names(entries).index_of(name)].1@,
    )
}

/// The map that a list of entries builds up when they are put in one after
/// the other: a later entry replaces an earlier one of the same name.
pub open spec fn entries_fold(entries: Seq<(String, Vec<u8>)>) -> Map<Seq<char>, Seq<u8>>
    decreases entries.len(),
{
    if entries.len() == 0 {
        Map::empty()
    } else {
        entries_fold(entries.drop_last()).insert(entries.last().0@, entries.last().1@)
    }
}

/// In a list with distinct names, the entry at `i` is the one that its name maps to.
pub proof fn lemma_entry_at(entries: Seq<(String, Vec<u8>)>, i: int)
    requires
        names(entries).no_duplicates(),
        0 <= i < entries.len(),
    ensures
        entries_map(entries).contains_key(entries[i].0@),
        entries_map(entries)[entries[i].0@] == entries[i].1@,
        names(entries).index_of(entries[i].0@) == i,
{
    let ns = names(entries);
    assert(ns[i] == entries[i].0@);
    assert(ns.contains(entries[i].0@));
    let j = ns.index_of(entries[i].0@);
    assert(0 <= j < ns.len() && ns[j] == entries[i].0@);
}

/// Among entries with distinct names, the map of the first `n + 1` entries
/// is the map of the first `n` with the entry at `n` put in.
proof fn lemma_entries_take(entries: Seq<(String, Vec<u8>)>, n: int)
    requires
        names(entries).no_duplicates(),
        0 <= n < entries.len(),
    ensures
        names(entries.take(n)).no_duplicates(),
        names(entries.take(n + 1)).no_duplicates(),
        entries_map(entries.take(n + 1)) == entries_map(entries.take(n)).insert(
            entries[n].0@,
            entries[n].1@,
        ),
{
    let before = entries.take(n);
    let after = entries.take(n + 1);
    assert(names(before) =~= names(entries).take(n));
    assert(names(after) =~= names(entries).take(n + 1));
    assert(names(after) =~= names(before).push(entries[n].0@));
    assert forall|a: int, b: int|
        0 <= a < after.len() && 0 <= b < after.len() && a != b implies names(after)[a] != names(
        after,
    )[b] by {
        assert(names(after)[a] == names(entries)[a]);
        assert(names(after)[b] == names(entries)[b]);
    }
    assert forall|a: int, b: int|
        0 <= a < before.len() && 0 <= b < before.len() && a != b implies names(before)[a]
        != names(before)[b] by {
        assert(names(before)[a] == names(entries)[a]);
        assert(names(before)[b] == names(entries)[b]);
    }
    assert forall|k: Seq<char>|
        names(after).contains(k) <==> (names(before).contains(k) || k == entries[n].0@) by {
        if names(before).contains(k) {
            let j = names(before).index_of(k);
            assert(0 <= j < n && names(before)[j] == k);
            assert(names(after)[j] == k);
        }
        if k == entries[n].0@ {
            assert(names(after)[n] == k);
        }
        if names(after).contains(k) {
            let j = names(after).index_of(k);
            assert(0 <= j < after.len() && names(after)[j] == k);
            if j < n {
                assert(names(before)[j] == k);
            }
        }
    }
    assert forall|k: Seq<char>| names(after).contains(k) implies #[trigger] entries_map(after)[k]
        == entries_map(before).insert(entries[n].0@, entries[n].1@)[k] by {
        let j = names(after).index_of(k);
        assert(0 <= j < after.len() && names(after)[j] == k);
        if j < n {
            assert(names(before)[j] == k);
            assert(names(entries)[j] == k);
            assert(names(entries)[n] == entries[n].0@);
            lemma_entry_at(before, j);
            assert(after[j] == before[j]);
        } else {
            assert(after[n] == entries[n]);
        }
    }
    assert(entries_map(after) =~= entries_map(before).insert(entries[n].0@, entries[n].1@));
}

/// The position of the entry named `field`, if there is one.
fn find(entries: &Vec<(String, Vec<u8>)>, field: &str) -> (pos: Option<usize>)
    requires
        names(entries@).no_duplicates(),
    ensures
        match pos {
            Some(i) => i < entries.len() && entries@[i as int].0@ == field@,
            None => !names(entries@).contains(field@),
        },
{
    let mut i: usize = 0;
    while i < entries.len()
        invariant
            i <= entries.len(),
            forall|j: int| 0 <= j < i ==> entries@[j].0@ != field@,
        decreases entries.len() - i,
    {
        if str_eq(entries[i].0.as_str(), field) {
            return Some(i);
        }
        i += 1;
    }
    assert forall|j: int| 0 <= j < names(entries@).len() implies names(entries@)[j] != field@ by {
        assert(names(entries@)[j] == entries@[j].0@);
    }
    None
}

/// Sets `field` to `value` in a list of entries with distinct names, and
/// returns the value that it had.
fn put(entries: &mut Vec<(String, Vec<u8>)>, field: String, value: Vec<u8>) -> (previous: Option<
    Vec<u8>,
>)
    requires
        names(old(entries)@).no_duplicates(),
    ensures
        names(final(entries)@).no_duplicates(),
        entries_map(final(entries)@) == entries_map(old(entries)@).insert(field@, value@),
        match previous {
            Some(v) => entries_map(old(entries)@).contains_key(field@) && v@ == entries_map(
                old(entries)@,
            )[field@],
            None => !entries_map(old(entries)@).contains_key(field@),
        },
{
    let ghost before = entries@;
    match find(entries, field.as_str()) {
        Some(i) => {
            let removed = entries.remove(i);
            entries.insert(i, (field, value));
            proof {
                let after = entries@;
                lemma_entry_at(before, i as int);
                assert(names(after) =~= names(before));
                assert forall|k: Seq<char>| names(before).contains(k) implies
                    #[trigger] entries_map(
                    after,
                )[k] == entries_map(before).insert(field@, value@)[k] by {
                    let j = names(before).index_of(k);
                    assert(0 <= j < before.len() && names(before)[j] == k);
                    if j == i {
                    } else {
                        assert(after[j] == before[j]);
                    }
                }
                assert(entries_map(after) =~= entries_map(before).insert(field@, value@));
            }
            Some(removed.1)
        },
        None => {
            entries.push((field, value));
            proof {
                let after = entries@;
                let n = before.len() as int;
                assert(names(after) =~= names(before).push(field@));
                assert forall|a: int, b: int|
                    0 <= a < names(after).len() && 0 <= b < names(after).len() && a
                        != b implies names(after)[a] != names(after)[b] by {
                    if a < n {
                        assert(names(before)[a] == names(after)[a]);
                        assert(names(before).contains(names(after)[a]));
                    }
                    if b < n {
                        assert(names(before)[b] == names(after)[b]);
                        assert(names(before).contains(names(after)[b]));
                    }
                }
                assert forall|k: Seq<char>| names(after).contains(k) implies #[trigger] entries_map(
                    after,
                )[k] == entries_map(before).insert(field@, value@)[k] by {
                    let j = names(after).index_of(k);
                    assert(0 <= j < after.len() && names(after)[j] == k);
                    if j == n {
                    } else {
                        assert(names(before)[j] == k);
                        lemma_entry_at(before, j);
                        assert(after[j] == before[j]);
                    }
                }
                assert forall|k: Seq<char>|
                    names(after).contains(k) <==> (names(before).contains(k) || k == field@) by {
                    if names(before).contains(k) {
                        let j = names(before).index_of(k);
                        assert(0 <= j < before.len() && names(before)[j] == k);
                        assert(names(after)[j] == k);
                    }
                    if k == field@ {
                        assert(names(after)[n] == k);
                    }
                    if names(after).contains(k) {
                        let j = names(after).index_of(k);
                        assert(0 <= j < after.len() && names(after)[j] == k);
                        if j < n {
                            assert(names(before)[j] == k);
                        }
                    }
                }
                assert(entries_map(after) =~= entries_map(before).insert(field@, value@));
            }
            None
        },
    }
}

/// Takes `field` out of a list of entries with distinct names, and returns
/// the value that it had.
fn take(entries: &mut Vec<(String, Vec<u8>)>, field: &str) -> (previous: Option<Vec<u8>>)
    requires
        names(old(entries)@).no_duplicates(),
    ensures
        names(final(entries)@).no_duplicates(),
        entries_map(final(entries)@) == entries_map(old(entries)@).remove(field@),
        match previous {
            Some(v) => entries_map(old(entries)@).contains_key(field@) && v@ == entries_map(
                old(entries)@,
            )[field@],
            None => !entries_map(old(entries)@).contains_key(field@),
        },
{
    let ghost before = entries@;
    match find(entries, field) {
        Some(i) => {
            let removed = entries.remove(i);
            proof {
                let after = entries@;
                lemma_entry_at(before, i as int);
                assert(names(after) =~= names(before).remove(i as int));
                assert forall|a: int, b: int|
                    0 <= a < names(after).len() && 0 <= b < names(after).len() && a
                        != b implies names(after)[a] != names(after)[b] by {
                    let a0 = if a < i { a } else { a + 1 };
                    let b0 = if b < i { b } else { b + 1 };
                    assert(names(after)[a] == names(before)[a0]);
                    assert(names(after)[b] == names(before)[b0]);
                }
                assert forall|k: Seq<char>|
                    names(after).contains(k) <==> (names(before).contains(k) && k != field@) by {
                    if names(before).contains(k) && k != field@ {
                        let j = names(before).index_of(k);
                        assert(0 <= j < before.len() && names(before)[j] == k);
                        let j1 = if j < i { j } else { j - 1 };
                        assert(names(after)[j1] == k);
                    }
                    if names(after).contains(k) {
                        let j = names(after).index_of(k);
                        assert(0 <= j < after.len() && names(after)[j] == k);
                        let j0 = if j < i { j } else { j + 1 };
                        assert(names(before)[j0] == k);
                    }
                }
                assert forall|k: Seq<char>| names(after).contains(k) implies #[trigger] entries_map(
                    after,
                )[k] == entries_map(before)[k] by {
                    let j = names(after).index_of(k);
                    assert(0 <= j < after.len() && names(after)[j] == k);
                    let j0 = if j < i { j } else { j + 1 };
                    assert(after[j] == before[j0]);
                    lemma_entry_at(before, j0);
                }
                assert(entries_map(after) =~= entries_map(before).remove(field@));
            }
            Some(removed.1)
        },
        None => {
            proof {
                assert(entries_map(before) =~= entries_map(before).remove(field@));
            }
            None
        },
    }
}

/// Whether every entry of `a` from position `from` on is in `b` with the same value.
fn covered_from(a: &Vec<(String, Vec<u8>)>, b: &Vec<(String, Vec<u8>)>) -> (all: bool)
    requires
        names(a@).no_duplicates(),
        names(b@).no_duplicates(),
    ensures
        all == entries_map(a@).submap_of(entries_map(b@)),
{
    let mut i: usize = 0;
    while i < a.len()
        invariant
            i <= a.len(),
            names(a@).no_duplicates(),
            names(b@).no_duplicates(),
            forall|j: int|
                0 <= j < i ==> entries_map(b@).contains_key(#[trigger] a@[j].0@) && entries_map(
                    b@,
                )[a@[j].0@] == a@[j].1@,
        decreases a.len() - i,
    {
        proof {
            lemma_entry_at(a@, i as int);
        }
        match find(b, a[i].0.as_str()) {
            Some(k) => {
                proof {
                    lemma_entry_at(b@, k as int);
                }
                if !bytes_eq(&a[i].1, &b[k].1) {
                    return false;
                }
            },
            None => {
                proof {
                    assert(entries_map(a@).dom().contains(a@[i as int].0@));
                    assert(!entries_map(b@).dom().contains(a@[i as int].0@));
                }
                return false;
            },
        }
        i += 1;
    }
    proof {
        assert forall|name: Seq<char>| #[trigger]
            entries_map(a@).dom().contains(name) implies entries_map(b@).dom().contains(name)
            && entries_map(a@)[name] == entries_map(b@)[name] by {
            let j = names(a@).index_of(name);
            assert(0 <= j < a@.len() && names(a@)[j] == name);
            lemma_entry_at(a@, j);
            assert(a@[j].0@ == name);
        }
    }
    true
}

/// One row of a table: a finite map from field names to byte values.
///
/// The fields are kept in a list in which no name occurs twice. A
/// `HashMap<String, _>` is not used, because vstd has no model of how a
/// `String` is hashed, so that nothing could be proved of such a map.
#[derive(Debug)]
pub struct FieldValues {
    entries: Vec<(String, Vec<u8>)>,
}

impl View for FieldValues {
    type V = Map<Seq<char>, Seq<u8>>;

    closed spec fn view(&self) -> Map<Seq<char>, Seq<u8>> {
        entries_map(self.entries@)
    }
}

impl FieldValues {
    #[verifier::type_invariant]
    spec fn distinct_names(&self) -> bool {
        names(self.entries@).no_duplicates()
    }

    /// The row without fields.
    pub fn new() -> (row: Self)
        ensures
            row@ == Map::<Seq<char>, Seq<u8>>::empty(),
    {
        let row = FieldValues { entries: Vec::new() };
        assert(row@ =~= Map::<Seq<char>, Seq<u8>>::empty());
        row
    }

    /// The value of `field`, if the row has that field.
    pub fn get(&self, field: &str) -> (value: Option<&Vec<u8>>)
        ensures
            match value {
                Some(v) => self@.contains_key(field@) && v@ == self@[field@],
                None => !self@.contains_key(field@),
            },
    {
        proof {
            use_type_invariant(self);
        }
        match find(&self.entries, field) {
            Some(i) => {
                proof {
                    lemma_entry_at(self.entries@, i as int);
                }
                Some(&self.entries[i].1)
            },
            None => None,
        }
    }

    /// The number of fields.
    pub fn len(&self) -> (n: usize)
        ensures
            self@.dom().finite(),
            n == self@.len(),
    {
        proof {
            use_type_invariant(self);
            let ns = names(self.entries@);
            assert(self@.dom() =~= ns.to_set());
            ns.unique_seq_to_set();
            vstd::seq_lib::seq_to_set_is_finite(ns);
        }
        self.entries.len()
    }

    /// Whether the row has no field.
    pub fn is_empty(&self) -> (empty: bool)
        ensures
            empty == (self@ == Map::<Seq<char>, Seq<u8>>::empty()),
    {
        proof {
            use_type_invariant(self);
            if self.entries@.len() > 0 {
                lemma_entry_at(self.entries@, 0);
            } else {
                assert(self@ =~= Map::<Seq<char>, Seq<u8>>::empty());
            }
        }
        self.entries.len() == 0
    }

    /// Whether the row has `field`.
    pub fn contains_key(&self, field: &str) -> (present: bool)
        ensures
            present == self@.contains_key(field@),
    {
        self.get(field).is_some()
    }

    /// Sets `field` to `value`; returns the value that `field` had before.
    pub fn insert(&mut self, field: String, value: Vec<u8>) -> (previous: Option<Vec<u8>>)
        ensures
            final(self)@ == old(self)@.insert(field@, value@),
            match previous {
                Some(v) => old(self)@.contains_key(field@) && v@ == old(self)@[field@],
                None => !old(self)@.contains_key(field@),
            },
    {
        proof {
            use_type_invariant(&*self);
        }
        let mut entries: Vec<(String, Vec<u8>)> = Vec::new();
        std::mem::swap(&mut entries, &mut self.entries);
        let previous = put(&mut entries, field, value);
        self.entries = entries;
        previous
    }

    /// The fields of the row with their values, each field once.
    pub fn into_entries(self) -> (entries: Vec<(String, Vec<u8>)>)
        ensures
            names(entries@).no_duplicates(),
            entries_map(entries@) == self@,
    {
        proof {
            use_type_invariant(&self);
        }
        self.entries
    }

    /// The row that has the fields of `entries`. Where a field is listed
    /// more than once, its last value counts.
    pub fn from_entries(entries: Vec<(String, Vec<u8>)>) -> (row: Self)
        ensures
            row@ == entries_fold(entries@),
    {
        let mut row = FieldValues::new();
        let mut rest = entries;
        let ghost all = rest@;
        let mut taken: Vec<(String, Vec<u8>)> = Vec::new();
        while rest.len() > 0
            invariant
                rest@.len() + taken@.len() == all.len(),
                forall|j: int| 0 <= j < rest@.len() ==> #[trigger] rest@[j] == all[j],
                forall|j: int| 0 <= j < taken@.len() ==>
                    #[trigger] taken@[j] == all[all.len() - 1 - j],
            decreases rest.len(),
        {
            let entry = rest.pop().unwrap();
            taken.push(entry);
        }
        proof {
            assert(all.take(0) =~= Seq::empty());
        }
        let mut i: usize = 0;
        let n = taken.len();
        while i < n
            invariant
                i <= n,
                n == all.len(),
                taken@.len() == n - i,
                forall|j: int| 0 <= j < n - i ==> #[trigger] taken@[j] == all[n - 1 - j],
                row@ == entries_fold(all.take(i as int)),
            decreases n - i,
        {
            let entry = taken.pop().unwrap();
            proof {
                assert(entry == all[i as int]);
                assert(all.take(i + 1).drop_last() =~= all.take(i as int));
                assert(all.take(i + 1).last() == entry);
            }
            row.insert(entry.0, entry.1);
            i += 1;
        }
        proof {
            assert(all.take(n as int) =~= all);
        }
        row
    }

    /// Puts every field of `other` into the row: a field that both have gets
    /// the value that `other` has for it.
    pub fn extend(&mut self, other: &FieldValues)
        ensures
            final(self)@ == old(self)@.union_prefer_right(other@),
    {
        proof {
            use_type_invariant(other);
            assert(other.entries@.take(0) =~= Seq::empty());
            assert(entries_map(other.entries@.take(0)) =~= Map::<Seq<char>, Seq<u8>>::empty());
            assert(self@.union_prefer_right(Map::<Seq<char>, Seq<u8>>::empty()) =~= self@);
        }
        let mut i: usize = 0;
        while i < other.entries.len()
            invariant
                i <= other.entries.len(),
                names(other.entries@).no_duplicates(),
                self@ == old(self)@.union_prefer_right(entries_map(other.entries@.take(i as int))),
            decreases other.entries.len() - i,
        {
            proof {
                lemma_entries_take(other.entries@, i as int);
            }
            let ghost before = self@;
            let ghost taken = entries_map(other.entries@.take(i as int));
            self.insert(other.entries[i].0.clone(), bytes_clone(&other.entries[i].1));
            proof {
                let k = other.entries@[i as int].0@;
                let v = other.entries@[i as int].1@;
                assert(old(self)@.union_prefer_right(taken).insert(k, v) =~= old(
                    self,
                )@.union_prefer_right(taken.insert(k, v)));
            }
            i += 1;
        }
        proof {
            assert(other.entries@.take(other.entries@.len() as int) =~= other.entries@);
        }
    }

    /// Removes `field`; returns the value that it had.
    pub fn remove(&mut self, field: &str) -> (previous: Option<Vec<u8>>)
        ensures
            final(self)@ == old(self)@.remove(field@),
            match previous {
                Some(v) => old(self)@.contains_key(field@) && v@ == old(self)@[field@],
                None => !old(self)@.contains_key(field@),
            },
    {
        proof {
            use_type_invariant(&*self);
        }
        let mut entries: Vec<(String, Vec<u8>)> = Vec::new();
        std::mem::swap(&mut entries, &mut self.entries);
        let previous = take(&mut entries, field);
        self.entries = entries;
        previous
    }
}

impl Clone for FieldValues {
    fn clone(&self) -> (copy: Self)
        ensures
            copy@ == self@,
    {
        proof {
            use_type_invariant(self);
        }
        let mut entries: Vec<(String, Vec<u8>)> = Vec::new();
        let mut i: usize = 0;
        while i < self.entries.len()
            invariant
                i <= self.entries.len(),
                entries@.len() == i,
                forall|j: int|
                    0 <= j < i ==> (#[trigger] entries@[j]).0@ == self.entries@[j].0@
                        && entries@[j].1@ == self.entries@[j].1@,
            decreases self.entries.len() - i,
        {
            entries.push((self.entries[i].0.clone(), bytes_clone(&self.entries[i].1)));
            i += 1;
        }
        proof {
            assert(names(entries@) =~= names(self.entries@));
            assert forall|name: Seq<char>| names(entries@).contains(name) implies
                #[trigger] entries_map(
                entries@,
            )[name] == entries_map(self.entries@)[name] by {
                let j = names(entries@).index_of(name);
                assert(0 <= j < entries@.len() && names(entries@)[j] == name);
            }
            assert(entries_map(entries@) =~= entries_map(self.entries@));
        }
        FieldValues { entries }
    }
}

impl PartialEq for FieldValues {
    fn eq(&self, other: &Self) -> (same: bool) {
        proof {
            use_type_invariant(self);
            use_type_invariant(other);
        }
        let same = covered_from(&self.entries, &other.entries) && covered_from(
            &other.entries,
            &self.entries,
        );
        proof {
            if same {
                assert forall|name: Seq<char>| self@.dom().contains(name) == other@.dom().contains(
                    name,
                ) by {
                    if self@.dom().contains(name) {
                        assert(other@.dom().contains(name));
                    }
                    if other@.dom().contains(name) {
                        assert(self@.dom().contains(name));
                    }
                }
                assert(self@ =~= other@);
            }
        }
        same
    }
}

impl vstd::std_specs::cmp::PartialEqSpecImpl for FieldValues {
    open spec fn obeys_eq_spec() -> bool {
        true
    }

    open spec fn eq_spec(&self, other: &Self) -> bool {
        self@ == other@
    }
}

} // verus!

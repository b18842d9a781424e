//! An actor's state: local copies of table rows, each with a lazily derived
//! typed form.
//!
//! The raw row is the source of truth. The typed form is a memo of the row's
//! deserialization: it is either absent or equal to what the current row
//! reads as. Output tables also record whether they were modified since they
//! were last drained.

use crate::codec::{
    read_fails, reads_as, write_fails, written_as, FieldValueError, ToFromFieldValues,
};
use crate::key::{Key, KeyView, OwnedKey};
use crate::row::FieldValues;
use vstd::prelude::*;

verus! {

/// A cached copy of one table row, with a memo of its typed form.
#[derive(Debug)]
pub struct CachedTable<T> {
    fvs: FieldValues,
    deserialized_cache: Option<T>,
}

impl<T: ToFromFieldValues> CachedTable<T> {
    /// The raw row.
    pub closed spec fn row(&self) -> Map<Seq<char>, Seq<u8>> {
        self.fvs@
    }

    /// The memoized typed form of the row, if it is present.
    pub closed spec fn cached(&self) -> Option<T::V> {
        match self.deserialized_cache {
            Some(t) => Some(t@),
            None => None,
        }
    }

    /// The memo, where present, is what the row reads as.
    pub open spec fn wf(&self) -> bool {
        self.cached() matches Some(v) ==> reads_as::<T>(self.row(), v)
    }

    /// A copy of `fvs` without a memo.
    pub fn new(fvs: FieldValues) -> (table: Self)
        ensures
            table.row() == fvs@,
            table.cached() is None,
            table.wf(),
    {
        Self { fvs, deserialized_cache: None }
    }

    /// Replaces the row, and forgets the memo if `invalidate` is set.
    ///
    /// A caller that keeps the memo vouches that the new row reads as the
    /// memoized value.
    pub fn update(&mut self, fvs: FieldValues, invalidate: bool)
        requires
            !invalidate ==> (old(self).cached() matches Some(v) ==> reads_as::<T>(fvs@, v)),
        ensures
            final(self).row() == fvs@,
            final(self).cached() == (if invalidate {
                None
            } else {
                old(self).cached()
            }),
            final(self).wf(),
    {
        self.fvs = fvs;
        if invalidate {
            self.deserialized_cache = None;
        }
    }

    /// Forgets the memo.
    pub fn invalidate_deserialized_cache(&mut self)
        ensures
            final(self).row() == old(self).row(),
            final(self).cached() is None,
            final(self).wf(),
    {
        self.deserialized_cache = None;
    }

    /// The raw row.
    pub fn fvs(&self) -> (fvs: &FieldValues)
        ensures
            fvs@ == self.row(),
    {
        &self.fvs
    }

    /// The raw row, for writing. The memo stays as it is: whoever writes
    /// through the reference has to forget the memo where the row changes.
    pub fn fvs_mut(&mut self) -> (fvs: &mut FieldValues)
        ensures
            fvs@ == old(self).row(),
            final(self).row() == final(fvs)@,
            final(self).cached() == old(self).cached(),
    {
        &mut self.fvs
    }

    /// Reads the row into the memo unless the memo is present.
    pub fn deserialize_into_cache(&mut self) -> (r: Result<(), FieldValueError>)
        requires
            old(self).wf(),
        ensures
            final(self).row() == old(self).row(),
            final(self).wf(),
            match r {
                Ok(()) => final(self).cached() matches Some(v) && reads_as::<T>(old(self).row(), v),
                Err(e) => read_fails::<T>(old(self).row(), e@) && final(self).cached() is None,
            },
    {
        if self.deserialized_cache.is_none() {
            match T::from_field_values(&self.fvs) {
                Ok(t) => {
                    self.deserialized_cache = Some(t);
                },
                Err(e) => {
                    return Err(e);
                },
            }
        }
        Ok(())
    }

    /// The typed form of the row for writing, read into the memo first
    /// where the memo was absent. Whoever writes through the reference has
    /// to write the row to match.
    pub fn deserialized_mut(&mut self) -> (r: Result<&mut T, FieldValueError>)
        requires
            old(self).wf(),
        ensures
            final(self).row() == old(self).row(),
            match r {
                Ok(t) => reads_as::<T>(old(self).row(), t@) && final(self).cached() == Some(
                    final(t)@,
                ),
                Err(e) => read_fails::<T>(old(self).row(), e@) && final(self).cached() is None,
            },
    {
        match self.deserialize_into_cache() {
            Ok(()) => Ok(self.deserialized_cache.as_mut().unwrap()),
            Err(e) => Err(e),
        }
    }

    /// The memo, if it is present.
    pub fn downcast_deserialized_cache(&self) -> (t: Option<&T>)
        ensures
            match t {
                Some(t) => self.cached() == Some(t@),
                None => self.cached() is None,
            },
    {
        self.deserialized_cache.as_ref()
    }

    /// The memo for writing, if it is present.
    pub fn downcast_deserialized_cache_mut(&mut self) -> (t: Option<&mut T>)
        ensures
            final(self).row() == old(self).row(),
            match t {
                Some(t) => old(self).cached() == Some(t@) && final(self).cached() == Some(
                    final(t)@,
                ),
                None => old(self).cached() is None && final(self).cached() is None,
            },
    {
        self.deserialized_cache.as_mut()
    }

    /// The typed form of the row, read into the memo first where the memo
    /// was absent.
    pub fn deserialized(&mut self) -> (r: Result<&T, FieldValueError>)
        requires
            old(self).wf(),
        ensures
            final(self).row() == old(self).row(),
            final(self).wf(),
            match r {
                Ok(t) => reads_as::<T>(old(self).row(), t@) && final(self).cached() == Some(t@),
                Err(e) => read_fails::<T>(old(self).row(), e@) && final(self).cached() is None,
            },
    {
        match self.deserialize_into_cache() {
            Ok(()) => Ok(self.deserialized_cache.as_ref().unwrap()),
            Err(e) => Err(e),
        }
    }
}

/// A read-only input table: a local copy of a row that is input to the actor.
#[derive(Debug)]
pub struct InputTable<T> {
    table: CachedTable<T>,
}

impl<T: ToFromFieldValues> InputTable<T> {
    /// The raw row.
    pub closed spec fn row(&self) -> Map<Seq<char>, Seq<u8>> {
        self.table.row()
    }

    /// The memoized typed form of the row, if it is present.
    pub closed spec fn cached(&self) -> Option<T::V> {
        self.table.cached()
    }

    /// The memo, where present, is what the row reads as.
    pub open spec fn wf(&self) -> bool {
        self.cached() matches Some(v) ==> reads_as::<T>(self.row(), v)
    }

    /// An input table that starts with the row `fvs`.
    pub fn new(fvs: FieldValues) -> (table: Self)
        ensures
            table.row() == fvs@,
            table.cached() is None,
            table.wf(),
    {
        Self { table: CachedTable::new(fvs) }
    }

    /// The raw row.
    pub fn fvs(&self) -> (fvs: &FieldValues)
        ensures
            fvs@ == self.row(),
    {
        self.table.fvs()
    }

    /// The row in its typed form.
    pub fn deserialized(&mut self) -> (r: Result<&T, FieldValueError>)
        requires
            old(self).wf(),
        ensures
            final(self).row() == old(self).row(),
            final(self).wf(),
            match r {
                Ok(t) => reads_as::<T>(old(self).row(), t@) && final(self).cached() == Some(t@),
                Err(e) => read_fails::<T>(old(self).row(), e@) && final(self).cached() is None,
            },
    {
        self.table.deserialized()
    }

    /// Takes over a row that the table's source reported, and forgets the memo.
    pub(crate) fn update(&mut self, fvs: FieldValues)
        ensures
            final(self).row() == fvs@,
            final(self).cached() is None,
            final(self).wf(),
    {
        self.table.update(fvs, true);
    }
}

/// What an output table is, as far as the laws of this module go: its row,
/// its memo, and whether it was modified since it was last drained.
pub struct TableModel<V> {
    pub row: Map<Seq<char>, Seq<u8>>,
    pub cached: Option<V>,
    pub dirty: bool,
}

/// One step in the life of an output table.
pub enum TableOp<V> {
    /// The row was written through `fvs_mut`; `row` is what it was left as.
    Write { row: Map<Seq<char>, Seq<u8>> },
    /// The typed form was read through `deserialized`.
    Read,
    /// The typed form was asked for through `deserialized_mut`.
    Acquire,
    /// The guard was released with `value`.
    Release { value: V },
    /// The table was drained.
    Drain,
}

/// The table after one step.
///
/// - A raw write leaves the row as written, without a memo, dirty.
/// - A read fills the memo where the row reads as a value.
/// - Asking for the typed form for writing takes the memo out and marks the
///   table dirty; where the row does not read as a value, nothing but the
///   memo's absence is certain.
/// - A release writes the value back: the row is the value's serialization
///   and the memo the value. A value without a serialization leaves the row
///   as it was, without a memo. Either way the table is dirty.
/// - A drain clears the flag.
pub open spec fn step<T: ToFromFieldValues>(m: TableModel<T::V>, op: TableOp<T::V>) -> TableModel<
    T::V,
> {
    match op {
        TableOp::Write { row } => TableModel { row, cached: None, dirty: true },
        TableOp::Read => match (m.cached, T::from_row_spec(m.row)) {
            (None, Ok(v)) => TableModel { row: m.row, cached: Some(v), dirty: m.dirty },
            _ => m,
        },
        TableOp::Acquire => TableModel {
            row: m.row,
            cached: None,
            dirty: m.dirty || T::from_row_spec(m.row) is Ok,
        },
        TableOp::Release { value } => match T::to_row_spec(value) {
            Ok(row) => TableModel { row, cached: Some(value), dirty: true },
            Err(_) => TableModel { row: m.row, cached: None, dirty: true },
        },
        TableOp::Drain => TableModel { row: m.row, cached: m.cached, dirty: false },
    }
}

/// The table after a sequence of steps.
pub open spec fn run<T: ToFromFieldValues>(m: TableModel<T::V>, ops: Seq<TableOp<T::V>>) -> TableModel<
    T::V,
>
    decreases ops.len(),
{
    if ops.len() == 0 {
        m
    } else {
        step::<T>(run::<T>(m, ops.drop_last()), ops.last())
    }
}

/// The memo, where present, is what the row reads as.
pub open spec fn coherent<T: ToFromFieldValues>(m: TableModel<T::V>) -> bool {
    m.cached matches Some(v) ==> reads_as::<T>(m.row, v)
}

/// Cache coherence: whatever is done to a table, and in whatever order, its
/// memo is never stale.
pub proof fn lemma_steps_keep_coherence<T: ToFromFieldValues>(
    m: TableModel<T::V>,
    ops: Seq<TableOp<T::V>>,
)
    requires
        coherent::<T>(m),
    ensures
        coherent::<T>(run::<T>(m, ops)),
    decreases ops.len(),
{
    if ops.len() > 0 {
        lemma_steps_keep_coherence::<T>(m, ops.drop_last());
        if let TableOp::Release { value } = ops.last() {
            if T::to_row_spec(value) is Ok {
                T::lemma_round_trip(value);
            }
        }
    }
}

/// Once a guard was released with a value that has a serialization, the row
/// is that serialization and every read gives that value, until the table
/// is written again.
pub proof fn lemma_reads_after_release<T: ToFromFieldValues>(
    m: TableModel<T::V>,
    value: T::V,
    reads: Seq<TableOp<T::V>>,
)
    requires
        T::to_row_spec(value) is Ok,
        forall|i: int| 0 <= i < reads.len() ==> #[trigger] reads[i] is Read,
    ensures
        run::<T>(step::<T>(m, TableOp::Release { value }), reads) == (TableModel {
            row: T::to_row_spec(value)->Ok_0,
            cached: Some(value),
            dirty: true,
        }),
        reads_as::<T>(T::to_row_spec(value)->Ok_0, value),
    decreases reads.len(),
{
    T::lemma_round_trip(value);
    if reads.len() > 0 {
        assert(reads.last() is Read) by {
            assert(reads[reads.len() - 1] is Read);
        }
        assert forall|i: int| 0 <= i < reads.drop_last().len() implies #[trigger] reads.drop_last()[i] is Read by {
            assert(reads[i] is Read);
        }
        lemma_reads_after_release::<T>(m, value, reads.drop_last());
    }
}

/// A table that is dirty stays dirty until it is drained: no modification
/// before a drain escapes that drain.
pub proof fn lemma_dirty_until_drained<T: ToFromFieldValues>(
    m: TableModel<T::V>,
    ops: Seq<TableOp<T::V>>,
)
    requires
        m.dirty,
        forall|i: int| 0 <= i < ops.len() ==> !(#[trigger] ops[i] is Drain),
    ensures
        run::<T>(m, ops).dirty,
    decreases ops.len(),
{
    if ops.len() > 0 {
        assert(!(ops.last() is Drain)) by {
            assert(!(ops[ops.len() - 1] is Drain));
        }
        assert forall|i: int| 0 <= i < ops.drop_last().len() implies !(#[trigger] ops.drop_last()[i] is Drain) by {
            assert(!(ops[i] is Drain));
        }
        lemma_dirty_until_drained::<T>(m, ops.drop_last());
    }
}

/// A table that is clean stays clean until it is modified: what a drain has
/// handed out, no later drain hands out again.
pub proof fn lemma_clean_until_modified<T: ToFromFieldValues>(
    m: TableModel<T::V>,
    ops: Seq<TableOp<T::V>>,
)
    requires
        !m.dirty,
        forall|i: int| 0 <= i < ops.len() ==> (#[trigger] ops[i] is Read) || ops[i] is Drain,
    ensures
        !run::<T>(m, ops).dirty,
    decreases ops.len(),
{
    if ops.len() > 0 {
        assert(ops.last() is Read || ops.last() is Drain) by {
            assert(ops[ops.len() - 1] is Read || ops[ops.len() - 1] is Drain);
        }
        assert forall|i: int| 0 <= i < ops.drop_last().len() implies (#[trigger] ops.drop_last()[i] is Read)
            || ops.drop_last()[i] is Drain by {
            assert(ops[i] is Read || ops[i] is Drain);
        }
        lemma_clean_until_modified::<T>(m, ops.drop_last());
    }
}

/// Every modification makes the table dirty: a raw write, a release, and
/// taking the typed form of a readable row for writing.
pub proof fn lemma_modification_is_dirty<T: ToFromFieldValues>(
    m: TableModel<T::V>,
    op: TableOp<T::V>,
)
    requires
        op is Write || op is Release || (op is Acquire && T::from_row_spec(m.row) is Ok),
    ensures
        step::<T>(m, op).dirty,
{
}

/// A read-write output table: a local copy of a row that the actor publishes
/// or keeps as its own state.
#[derive(Debug)]
pub struct OutputTable<T> {
    table: CachedTable<T>,
    dirty: bool,
}

impl<T: ToFromFieldValues> OutputTable<T> {
    /// The raw row.
    pub closed spec fn row(&self) -> Map<Seq<char>, Seq<u8>> {
        self.table.row()
    }

    /// The memoized typed form of the row, if it is present.
    pub closed spec fn cached(&self) -> Option<T::V> {
        self.table.cached()
    }

    /// Whether the table was modified since it was last drained.
    pub closed spec fn dirty(&self) -> bool {
        self.dirty
    }

    /// The memo, where present, is what the row reads as.
    pub open spec fn wf(&self) -> bool {
        self.cached() matches Some(v) ==> reads_as::<T>(self.row(), v)
    }

    /// The table as the laws of this module see it.
    pub open spec fn model(&self) -> TableModel<T::V> {
        TableModel { row: self.row(), cached: self.cached(), dirty: self.dirty() }
    }

    /// The same table with its dirty flag cleared.
    pub closed spec fn cleaned(self) -> Self {
        OutputTable { table: self.table, dirty: false }
    }

    /// Clearing the flag changes nothing else.
    pub proof fn lemma_cleaned(self)
        ensures
            self.cleaned().row() == self.row(),
            self.cleaned().cached() == self.cached(),
            !self.cleaned().dirty(),
            self.wf() ==> self.cleaned().wf(),
            !self.dirty() ==> self.cleaned() == self,
            self.cleaned().model() == step::<T>(self.model(), TableOp::Drain),
    {
    }

    /// Cache coherence: a table whose row is the serialization of a value
    /// reads as exactly that value.
    pub proof fn lemma_committed_value_is_read(&self, value: T::V)
        requires
            written_as::<T>(value, self.row()),
        ensures
            reads_as::<T>(self.row(), value),
    {
        T::lemma_round_trip(value);
    }

    /// An output table that starts with the row `fvs`, not dirty.
    pub fn new(fvs: FieldValues) -> (table: Self)
        ensures
            table.row() == fvs@,
            table.cached() is None,
            !table.dirty(),
            table.wf(),
    {
        Self { table: CachedTable::new(fvs), dirty: false }
    }

    /// The raw row.
    pub fn fvs(&self) -> (fvs: &FieldValues)
        ensures
            fvs@ == self.row(),
    {
        self.table.fvs()
    }

    /// Whether the table was modified since it was last drained.
    pub fn is_dirty(&self) -> (dirty: bool)
        ensures
            dirty == self.dirty(),
    {
        self.dirty
    }

    /// The raw row, for writing. Marks the table dirty and forgets the memo,
    /// since the row may no longer read as the memoized value.
    pub fn fvs_mut(&mut self) -> (fvs: &mut FieldValues)
        ensures
            fvs@ == old(self).row(),
            final(self).row() == final(fvs)@,
            final(self).cached() is None,
            final(self).dirty(),
            final(self).wf(),
            final(self).model() == step::<T>(old(self).model(), TableOp::Write { row: final(fvs)@ }),
    {
        self.dirty = true;
        self.table.invalidate_deserialized_cache();
        self.table.fvs_mut()
    }

    /// The row in its typed form.
    pub fn deserialized(&mut self) -> (r: Result<&T, FieldValueError>)
        requires
            old(self).wf(),
        ensures
            final(self).row() == old(self).row(),
            final(self).dirty() == old(self).dirty(),
            final(self).wf(),
            final(self).model() == step::<T>(old(self).model(), TableOp::Read),
            match r {
                Ok(t) => reads_as::<T>(old(self).row(), t@) && final(self).cached() == Some(t@),
                Err(e) => read_fails::<T>(old(self).row(), e@) && final(self).cached() is None,
            },
    {
        self.table.deserialized()
    }

    /// The row in its typed form, for writing.
    ///
    /// On success the table is dirty, and the guard holds the typed value,
    /// taken out of the memo. Nothing that is done to the value reaches the
    /// table before the guard is released; a guard that is never released
    /// leaves the row as it was.
    pub fn deserialized_mut(&mut self) -> (r: Result<DeserializedMutGuard<'_, T>, FieldValueError>)
        requires
            old(self).wf(),
        ensures
            match r {
                Ok(guard) => {
                    &&& reads_as::<T>(old(self).row(), guard.value@)
                    &&& guard.table.row() == old(self).row()
                    &&& guard.table.cached() is None
                    &&& guard.table.dirty()
                    &&& guard.table.model() == step::<T>(old(self).model(), TableOp::Acquire)
                    &&& *final(self) == *final(guard.table)
                },
                Err(e) => {
                    &&& read_fails::<T>(old(self).row(), e@)
                    &&& final(self).row() == old(self).row()
                    &&& final(self).cached() is None
                    &&& final(self).dirty() == old(self).dirty()
                    &&& final(self).model() == step::<T>(old(self).model(), TableOp::Acquire)
                },
            },
    {
        match self.table.deserialize_into_cache() {
            Ok(()) => {
                let value = self.table.deserialized_cache.take().unwrap();
                self.dirty = true;
                Ok(DeserializedMutGuard { table: self, value })
            },
            Err(e) => Err(e),
        }
    }
}

/// A typed value on its way back into an [`OutputTable`].
///
/// The guard holds the value while the actor changes it. [`release`] writes
/// the value back: the row becomes the value's serialization and the memo the
/// value itself, so that both forms agree again.
///
/// [`release`]: DeserializedMutGuard::release
#[must_use]
pub struct DeserializedMutGuard<'a, T> {
    /// The table that the value was taken from and goes back to.
    pub table: &'a mut OutputTable<T>,
    /// The value, as changed so far.
    pub value: T,
}

impl<'a, T: ToFromFieldValues> DeserializedMutGuard<'a, T> {
    /// The value, as changed so far.
    pub fn deref(&self) -> (t: &T)
        ensures
            *t == self.value,
    {
        &self.value
    }

    /// The value, for writing.
    pub fn deref_mut(&mut self) -> (t: &mut T)
        ensures
            *t == old(self).value,
            final(self).value == *final(t),
            final(self).table == old(self).table,
    {
        &mut self.value
    }

    /// Puts the value and its serialization `fvs` into the table.
    fn commit(self, fvs: FieldValues)
        requires
            written_as::<T>(self.value@, fvs@),
        ensures
            final(self.table).dirty(),
            final(self.table).wf(),
            final(self.table).row() == fvs@,
            final(self.table).cached() == Some(self.value@),
    {
        let DeserializedMutGuard { table, value } = self;
        proof {
            T::lemma_round_trip(value@);
        }
        table.dirty = true;
        table.table.fvs = fvs;
        table.table.deserialized_cache = Some(value);
    }

    /// Writes the value back into the table: the row becomes the value's
    /// serialization, the memo holds the value, and the table is dirty.
    ///
    /// The value has to have a serialization. One that has none is a fault
    /// of the actor that made it, and there is no way to go on from it: a
    /// caller that cannot rule it out uses [`DeserializedMutGuard::try_release`]
    /// and gives up its operation on an error.
    pub fn release(self)
        requires
            T::to_row_spec(self.value@) is Ok,
        ensures
            final(self.table).dirty(),
            final(self.table).wf(),
            final(self.table).model() == step::<T>(
                old(self.table).model(),
                TableOp::Release { value: self.value@ },
            ),
            written_as::<T>(self.value@, final(self.table).row()),
            final(self.table).cached() == Some(self.value@),
    {
        let fvs = self.value.to_field_values().unwrap();
        self.commit(fvs);
    }

    /// Writes the value back into the table if it has a serialization, as
    /// [`DeserializedMutGuard::release`] does. A value that has none is
    /// reported, and nothing of it reaches the table: the row stays as it
    /// was, without a memo, and the table is dirty.
    pub fn try_release(self) -> (r: Result<(), FieldValueError>)
        ensures
            final(self.table).dirty(),
            final(self.table).wf(),
            final(self.table).model() == step::<T>(
                old(self.table).model(),
                TableOp::Release { value: self.value@ },
            ),
            match r {
                Ok(()) => {
                    &&& written_as::<T>(self.value@, final(self.table).row())
                    &&& final(self.table).cached() == Some(self.value@)
                },
                Err(e) => {
                    &&& write_fails::<T>(self.value@, e@)
                    &&& final(self.table).row() == old(self.table).row()
                    &&& final(self.table).cached() is None
                },
            },
    {
        match self.value.to_field_values() {
            Ok(fvs) => {
                self.commit(fvs);
                Ok(())
            },
            Err(e) => {
                let DeserializedMutGuard { table, value: _ } = self;
                table.dirty = true;
                table.table.deserialized_cache = None;
                Err(e)
            },
        }
    }
}

/// Why an update could not be taken into an actor's state.
#[derive(Debug, PartialEq, Eq, Structural)]
pub enum StateError {
    /// No table was registered under the key.
    NotFound,
}

/// The keys of a list of keyed tables, in order.
pub open spec fn keys_of<V>(entries: Seq<(OwnedKey, V)>) -> Seq<KeyView> {
    entries.map_values(|e: (OwnedKey, V)| e.0@)
}

/// The tables of a list of keyed tables, in order.
pub open spec fn tables_of<V>(entries: Seq<(OwnedKey, V)>) -> Seq<V> {
    entries.map_values(|e: (OwnedKey, V)| e.1)
}

/// The map that a list of keyed tables with distinct keys stands for.
pub open spec fn table_map<V>(entries: Seq<(OwnedKey, V)>) -> Map<KeyView, V> {
    Map::new(
        |k: KeyView| keys_of(entries).contains(k),
        |k: KeyView| entries[keys_of(entries).index_of(k)].1,
    )
}

/// In a list with distinct keys, the table at `i` is the one that its key maps to.
proof fn lemma_table_at<V>(entries: Seq<(OwnedKey, V)>, i: int)
    requires
        keys_of(entries).no_duplicates(),
        0 <= i < entries.len(),
    ensures
        table_map(entries).contains_key(entries[i].0@),
        table_map(entries)[entries[i].0@] == entries[i].1,
        keys_of(entries).index_of(entries[i].0@) == i,
{
    let ks = keys_of(entries);
    assert(ks[i] == entries[i].0@);
    assert(ks.contains(entries[i].0@));
}

/// Replacing the table at `i` keeps the keys and changes the map at one key.
proof fn lemma_table_update<V>(entries: Seq<(OwnedKey, V)>, i: int, table: V)
    requires
        keys_of(entries).no_duplicates(),
        0 <= i < entries.len(),
    ensures
        keys_of(entries.update(i, (entries[i].0, table))) == keys_of(entries),
        table_map(entries.update(i, (entries[i].0, table))) == table_map(entries).insert(
            entries[i].0@,
            table,
        ),
{
    let after = entries.update(i, (entries[i].0, table));
    assert(keys_of(after) =~= keys_of(entries));
    lemma_table_at(entries, i);
    assert forall|k: KeyView| keys_of(entries).contains(k) implies #[trigger] table_map(after)[k]
        == table_map(entries).insert(entries[i].0@, table)[k] by {
        let j = keys_of(entries).index_of(k);
        assert(0 <= j < entries.len() && keys_of(entries)[j] == k);
        if j != i {
            assert(after[j] == entries[j]);
        }
    }
    assert(table_map(after) =~= table_map(entries).insert(entries[i].0@, table));
}

/// Appending a table under a new key keeps the keys distinct and adds the key to the map.
proof fn lemma_table_push<V>(entries: Seq<(OwnedKey, V)>, key: OwnedKey, table: V)
    requires
        keys_of(entries).no_duplicates(),
        !keys_of(entries).contains(key@),
    ensures
        keys_of(entries.push((key, table))) == keys_of(entries).push(key@),
        keys_of(entries.push((key, table))).no_duplicates(),
        table_map(entries.push((key, table))) == table_map(entries).insert(key@, table),
{
    let after = entries.push((key, table));
    let n = entries.len() as int;
    assert(keys_of(after) =~= keys_of(entries).push(key@));
    assert forall|a: int, b: int|
        0 <= a < keys_of(after).len() && 0 <= b < keys_of(after).len() && a != b implies keys_of(
        after,
    )[a] != keys_of(after)[b] by {
        if a < n {
            assert(keys_of(entries)[a] == keys_of(after)[a]);
        }
        if b < n {
            assert(keys_of(entries)[b] == keys_of(after)[b]);
        }
    }
    assert forall|k: KeyView|
        keys_of(after).contains(k) <==> (keys_of(entries).contains(k) || k == key@) by {
        if keys_of(entries).contains(k) {
            let j = keys_of(entries).index_of(k);
            assert(0 <= j < n && keys_of(entries)[j] == k);
            assert(keys_of(after)[j] == k);
        }
        if k == key@ {
            assert(keys_of(after)[n] == k);
        }
        if keys_of(after).contains(k) {
            let j = keys_of(after).index_of(k);
            assert(0 <= j < after.len() && keys_of(after)[j] == k);
            if j < n {
                assert(keys_of(entries)[j] == k);
            }
        }
    }
    assert forall|k: KeyView| keys_of(after).contains(k) implies #[trigger] table_map(after)[k]
        == table_map(entries).insert(key@, table)[k] by {
        let j = keys_of(after).index_of(k);
        assert(0 <= j < after.len() && keys_of(after)[j] == k);
        if j < n {
            assert(keys_of(entries)[j] == k);
            lemma_table_at(entries, j);
            assert(after[j] == entries[j]);
        }
    }
    assert(table_map(after) =~= table_map(entries).insert(key@, table));
}

/// Registers `table` under `key`, in place of the table that `key` had.
fn register<V>(entries: &mut Vec<(OwnedKey, V)>, key: OwnedKey, table: V)
    requires
        keys_of(old(entries)@).no_duplicates(),
    ensures
        keys_of(final(entries)@).no_duplicates(),
        table_map(final(entries)@) == table_map(old(entries)@).insert(key@, table),
        keys_of(final(entries)@) == (if keys_of(old(entries)@).contains(key@) {
            keys_of(old(entries)@)
        } else {
            keys_of(old(entries)@).push(key@)
        }),
        forall|i: int|
            0 <= i < final(entries)@.len() ==> #[trigger] final(entries)@[i].1 == table || (i < old(
                entries,
            )@.len() && final(entries)@[i].1 == old(entries)@[i].1),
{
    let ghost before = entries@;
    match position(entries, key.borrow()) {
        Some(i) => {
            proof {
                lemma_table_at(before, i as int);
                lemma_table_update(before, i as int, table);
            }
            let removed = entries.remove(i);
            entries.insert(i, (removed.0, table));
            assert(entries@ =~= before.update(i as int, (before[i as int].0, table)));
        },
        None => {
            proof {
                lemma_table_push(before, key, table);
            }
            entries.push((key, table));
        },
    }
}

/// The test for a key whose table in `entries` is dirty.
spec fn key_is_dirty<T: ToFromFieldValues>(entries: Seq<(OwnedKey, OutputTable<T>)>) -> spec_fn(
    KeyView,
) -> bool {
    |k: KeyView| table_map(entries)[k].dirty()
}

/// The dirty keys among the first `n` entries.
spec fn dirty_keys_upto<T: ToFromFieldValues>(
    entries: Seq<(OwnedKey, OutputTable<T>)>,
    n: int,
) -> Seq<KeyView> {
    keys_of(entries).take(n).filter(key_is_dirty(entries))
}

/// The dirty tables among the first `n` entries.
spec fn dirty_tables_upto<T: ToFromFieldValues>(
    entries: Seq<(OwnedKey, OutputTable<T>)>,
    n: int,
) -> Seq<OutputTable<T>> {
    tables_of(entries).take(n).filter(|t: OutputTable<T>| t.dirty())
}

/// Among the first `n` entries of a list with distinct keys, the dirty keys
/// and the dirty tables go together, position by position.
proof fn lemma_dirty_upto<T: ToFromFieldValues>(entries: Seq<(OwnedKey, OutputTable<T>)>, n: int)
    requires
        keys_of(entries).no_duplicates(),
        0 <= n <= entries.len(),
    ensures
        dirty_keys_upto(entries, n).len() == dirty_tables_upto(entries, n).len(),
        forall|m: int|
            0 <= m < dirty_keys_upto(entries, n).len() ==>
                table_map(entries)[#[trigger] dirty_keys_upto(
                entries,
                n,
            )[m]] == dirty_tables_upto(entries, n)[m],
        forall|k: KeyView|
            dirty_keys_upto(entries, n).contains(k) <==> exists|j: int|
                0 <= j < n && #[trigger] keys_of(entries)[j] == k && entries[j].1.dirty(),
        dirty_keys_upto(entries, n).no_duplicates(),
    decreases n,
{
    let keys = keys_of(entries);
    let tables = tables_of(entries);
    let by_key = key_is_dirty(entries);
    let by_table = |t: OutputTable<T>| t.dirty();
    if n == 0 {
        assert(keys.take(0) =~= Seq::empty());
        assert(tables.take(0) =~= Seq::empty());
        assert(dirty_keys_upto(entries, n) =~= Seq::empty());
        assert(dirty_tables_upto(entries, n) =~= Seq::empty());
    } else {
        lemma_dirty_upto(entries, n - 1);
        let k = keys[n - 1];
        let t = tables[n - 1];
        lemma_table_at(entries, n - 1);
        assert(k == entries[n - 1].0@ && t == entries[n - 1].1);
        keys.lemma_take_succ_push(n - 1);
        tables.lemma_take_succ_push(n - 1);
        keys.take(n - 1).lemma_filter_push(k, by_key);
        tables.take(n - 1).lemma_filter_push(t, by_table);
        let before = dirty_keys_upto(entries, n - 1);
        let now = dirty_keys_upto(entries, n);
        assert(by_key(k) == t.dirty());
        assert forall|x: KeyView| now.contains(x) <==> exists|j: int|
            0 <= j < n && #[trigger] keys[j] == x && entries[j].1.dirty() by {
            if now.contains(x) {
                let m = now.index_of(x);
                assert(0 <= m < now.len() && now[m] == x);
                if t.dirty() && m == before.len() {
                    assert(keys[n - 1] == x);
                } else {
                    assert(before[m] == x);
                    assert(before.contains(x));
                    let j = choose|j: int|
                        0 <= j < n - 1 && #[trigger] keys[j] == x && entries[j].1.dirty();
                    assert(0 <= j < n && keys[j] == x && entries[j].1.dirty());
                }
            }
            if exists|j: int| 0 <= j < n && #[trigger] keys[j] == x && entries[j].1.dirty() {
                let j = choose|j: int|
                    0 <= j < n && #[trigger] keys[j] == x && entries[j].1.dirty();
                if j == n - 1 {
                    assert(now[before.len() as int] == x);
                } else {
                    assert(0 <= j < n - 1 && keys[j] == x && entries[j].1.dirty());
                    assert(before.contains(x));
                    let m = before.index_of(x);
                    assert(0 <= m < before.len() && before[m] == x);
                    assert(now[m] == x);
                }
            }
        }
        if t.dirty() {
            assert(!before.contains(k)) by {
                if before.contains(k) {
                    let j = choose|j: int|
                        0 <= j < n - 1 && #[trigger] keys[j] == k && entries[j].1.dirty();
                    assert(keys[j] == keys[n - 1]);
                }
            }
            assert forall|a: int, b: int| 0 <= a < now.len() && 0 <= b < now.len() && a != b implies
                now[a]
                != now[b] by {
                if a < before.len() {
                    assert(before[a] == now[a]);
                    assert(before.contains(now[a]));
                }
                if b < before.len() {
                    assert(before[b] == now[b]);
                    assert(before.contains(now[b]));
                }
            }
        }
    }
}

/// The position of the table registered under `k`, if there is one.
fn position<V>(entries: &Vec<(OwnedKey, V)>, k: &Key<'_>) -> (pos: Option<usize>)
    ensures
        match pos {
            Some(i) => i < entries.len() && entries@[i as int].0@ == k@,
            None => !keys_of(entries@).contains(k@),
        },
{
    let mut i: usize = 0;
    while i < entries.len()
        invariant
            i <= entries.len(),
            forall|j: int| 0 <= j < i ==> entries@[j].0@ != k@,
        decreases entries.len() - i,
    {
        if entries[i].0.borrow().eq(k) {
            return Some(i);
        }
        i += 1;
    }
    assert forall|j: int| 0 <= j < keys_of(entries@).len() implies keys_of(entries@)[j] != k@ by {
        assert(keys_of(entries@)[j] == entries@[j].0@);
    }
    None
}

/// Actor state: a set of input tables and a set of output tables, each
/// identified by key.
///
/// The tables are kept in two lists, in the order in which they were
/// registered, and no key occurs twice in a list. A hash map would do the
/// same work faster, but what vstd states of `HashMap` holds only for key
/// types that obey its key model, and vstd grants that to the primitive
/// types alone: of a map keyed by `OwnedKey` nothing could be proved.
#[derive(Debug)]
pub struct State<I, O> {
    input_tables: Vec<(OwnedKey, InputTable<I>)>,
    output_tables: Vec<(OwnedKey, OutputTable<O>)>,
}

impl<I: ToFromFieldValues, O: ToFromFieldValues> State<I, O> {
    /// The input tables by key.
    pub closed spec fn inputs(&self) -> Map<KeyView, InputTable<I>> {
        table_map(self.input_tables@)
    }

    /// The output tables by key.
    pub closed spec fn outputs(&self) -> Map<KeyView, OutputTable<O>> {
        table_map(self.output_tables@)
    }

    /// The keys of the output tables, in the order in which they are drained.
    pub closed spec fn output_keys(&self) -> Seq<KeyView> {
        keys_of(self.output_tables@)
    }

    /// No key is registered twice among the input tables, nor among the
    /// output tables, and every table's memo agrees with its row.
    pub closed spec fn wf(&self) -> bool {
        &&& keys_of(self.input_tables@).no_duplicates()
        &&& keys_of(self.output_tables@).no_duplicates()
        &&& forall|i: int| 0 <= i < self.input_tables@.len() ==>
            (#[trigger] self.input_tables@[i]).1.wf()
        &&& forall|i: int|
            0 <= i < self.output_tables@.len() ==> (#[trigger] self.output_tables@[i]).1.wf()
    }

    /// The output tables, in the order in which they are drained.
    pub closed spec fn output_seq(&self) -> Seq<OutputTable<O>> {
        tables_of(self.output_tables@)
    }

    /// The output tables that are dirty, in draining order, each as it is
    /// once its flag is cleared.
    pub open spec fn dirty_tables(&self) -> Seq<OutputTable<O>> {
        self.output_seq().filter(Self::is_dirty()).map_values(Self::clean())
    }

    /// The keys of the output tables that are dirty, in draining order.
    pub closed spec fn dirty_keys(&self) -> Seq<KeyView> {
        dirty_keys_upto(self.output_tables@, self.output_tables@.len() as int)
    }

    /// A drain hands out each dirty table once: the dirty keys are distinct,
    /// they are the keys of exactly the output tables whose flag is set, and
    /// the tables handed out are theirs, in the same order.
    pub proof fn lemma_dirty_tables_by_key(&self)
        requires
            self.wf(),
        ensures
            self.dirty_keys().no_duplicates(),
            forall|k: KeyView| #[trigger]
                self.dirty_keys().contains(k) <==> self.outputs().contains_key(k)
                    && self.outputs()[k].dirty(),
            self.dirty_tables().len() == self.dirty_keys().len(),
            forall|m: int|
                0 <= m < self.dirty_keys().len() ==> #[trigger] self.dirty_tables()[m]
                    == self.outputs()[self.dirty_keys()[m]].cleaned(),
    {
        let entries = self.output_tables@;
        let n = entries.len() as int;
        lemma_dirty_upto(entries, n);
        assert(tables_of(entries).take(n) =~= tables_of(entries));
        assert(Self::is_dirty() == (|t: OutputTable<O>| t.dirty()));
        assert(dirty_tables_upto(entries, n) == self.output_seq().filter(Self::is_dirty()));
        assert forall|k: KeyView| #[trigger]
            self.dirty_keys().contains(k) <==> self.outputs().contains_key(k)
                && self.outputs()[k].dirty() by {
            if self.dirty_keys().contains(k) {
                let j = choose|j: int|
                    0 <= j < n && #[trigger] keys_of(entries)[j] == k && entries[j].1.dirty();
                lemma_table_at(entries, j);
            }
            if self.outputs().contains_key(k) && self.outputs()[k].dirty() {
                let j = keys_of(entries).index_of(k);
                assert(0 <= j < n && keys_of(entries)[j] == k);
                lemma_table_at(entries, j);
            }
        }
    }

    /// Right after a drain no output table is dirty: a second drain hands
    /// out nothing.
    pub proof fn lemma_drained_is_clean(&self, after: &Self)
        requires
            self.drained(after),
        ensures
            after.dirty_tables() == Seq::<OutputTable<O>>::empty(),
    {
        let tables = after.output_seq();
        let dirty = tables.filter(Self::is_dirty());
        if dirty.len() > 0 {
            tables.lemma_filter_pred(Self::is_dirty(), 0);
            assert(Self::is_dirty()(dirty[0]));
            assert(dirty.contains(dirty[0]));
            tables.lemma_filter_contains_rev(Self::is_dirty(), dirty[0]);
            let j = tables.index_of(dirty[0]);
            assert(0 <= j < tables.len() && tables[j] == dirty[0]);
            assert(tables[j] == self.output_seq()[j].cleaned());
        }
        assert(after.dirty_tables() =~= Seq::<OutputTable<O>>::empty());
    }

    /// The test for a table's dirty flag.
    pub open spec fn is_dirty() -> spec_fn(OutputTable<O>) -> bool {
        |t: OutputTable<O>| t.dirty()
    }

    /// The step from a table to the same table with its flag cleared.
    pub open spec fn clean() -> spec_fn(OutputTable<O>) -> OutputTable<O> {
        |t: OutputTable<O>| t.cleaned()
    }

    /// The state in which every output table has its flag cleared.
    pub open spec fn drained(&self, after: &Self) -> bool {
        &&& after.inputs() == self.inputs()
        &&& after.output_keys() == self.output_keys()
        &&& after.output_seq() == self.output_seq().map_values(Self::clean())
    }

    /// In a well-formed state every table is well-formed.
    pub proof fn lemma_tables_wf(&self)
        requires
            self.wf(),
        ensures
            forall|k: KeyView| #[trigger]
                self.inputs().contains_key(k) ==> self.inputs()[k].wf(),
            forall|k: KeyView| #[trigger]
                self.outputs().contains_key(k) ==> self.outputs()[k].wf(),
            self.output_seq().len() == self.output_keys().len(),
            self.output_keys().no_duplicates(),
            forall|i: int|
                0 <= i < self.output_seq().len() ==> (#[trigger] self.output_seq()[i]).wf(),
    {
        assert forall|k: KeyView| #[trigger] self.inputs().contains_key(k) implies
            self.inputs()[k].wf() by {
            let j = keys_of(self.input_tables@).index_of(k);
            assert(0 <= j < self.input_tables@.len() && keys_of(self.input_tables@)[j] == k);
            lemma_table_at(self.input_tables@, j);
            assert(self.input_tables@[j].1.wf());
        }
        assert forall|k: KeyView| #[trigger]
            self.outputs().contains_key(k) implies self.outputs()[k].wf() by {
            let j = keys_of(self.output_tables@).index_of(k);
            assert(0 <= j < self.output_tables@.len() && keys_of(self.output_tables@)[j] == k);
            lemma_table_at(self.output_tables@, j);
            assert(self.output_tables@[j].1.wf());
        }
        assert forall|i: int| 0 <= i < self.output_seq().len() implies
            (#[trigger] self.output_seq()[i]).wf() by {
            assert(self.output_tables@[i].1.wf());
        }
    }

    /// The table at position `i` of the draining order is the one that the
    /// key at that position maps to.
    pub proof fn lemma_output_at(&self, i: int)
        requires
            self.wf(),
            0 <= i < self.output_keys().len(),
        ensures
            self.output_seq().len() == self.output_keys().len(),
            self.outputs().contains_key(self.output_keys()[i]),
            self.outputs()[self.output_keys()[i]] == self.output_seq()[i],
    {
        lemma_table_at(self.output_tables@, i);
    }

    /// The state without tables.
    pub fn new() -> (state: Self)
        ensures
            state.wf(),
            state.inputs() == Map::<KeyView, InputTable<I>>::empty(),
            state.outputs() == Map::<KeyView, OutputTable<O>>::empty(),
            state.output_keys() == Seq::<KeyView>::empty(),
    {
        let state = State { input_tables: Vec::new(), output_tables: Vec::new() };
        assert(state.output_keys() =~= Seq::<KeyView>::empty());
        assert(state.inputs() =~= Map::<KeyView, InputTable<I>>::empty());
        assert(state.outputs() =~= Map::<KeyView, OutputTable<O>>::empty());
        state
    }

    /// Registers an input table under `k`, starting with the row
    /// `initial_fvs`. A table that `k` already had is replaced.
    pub fn add_input_table(&mut self, k: OwnedKey, initial_fvs: FieldValues)
        requires
            old(self).wf(),
        ensures
            final(self).wf(),
            final(self).inputs().dom() == old(self).inputs().dom().insert(k@),
            final(self).inputs()[k@].row() == initial_fvs@,
            final(self).inputs()[k@].cached() is None,
            forall|j: KeyView|
                j != k@ && old(self).inputs().contains_key(j) ==> final(self).inputs()[j] == old(
                    self,
                ).inputs()[j],
            final(self).outputs() == old(self).outputs(),
            final(self).output_keys() == old(self).output_keys(),
    {
        register(&mut self.input_tables, k, InputTable::new(initial_fvs));
    }

    /// Registers an output table under `k`, starting with the row
    /// `initial_fvs` and not dirty. A table that `k` already had is replaced.
    pub fn add_output_table(&mut self, k: OwnedKey, initial_fvs: FieldValues)
        requires
            old(self).wf(),
        ensures
            final(self).wf(),
            final(self).outputs().dom() == old(self).outputs().dom().insert(k@),
            final(self).outputs()[k@].row() == initial_fvs@,
            final(self).outputs()[k@].cached() is None,
            !final(self).outputs()[k@].dirty(),
            forall|j: KeyView|
                j != k@ && old(self).outputs().contains_key(j) ==> final(self).outputs()[j] == old(
                    self,
                ).outputs()[j],
            final(self).output_keys() == (if old(self).outputs().contains_key(k@) {
                old(self).output_keys()
            } else {
                old(self).output_keys().push(k@)
            }),
            final(self).inputs() == old(self).inputs(),
    {
        register(&mut self.output_tables, k, OutputTable::new(initial_fvs));
    }

    /// Whether an input table is registered under `k`.
    pub fn has_input(&self, k: &Key<'_>) -> (registered: bool)
        ensures
            registered == self.inputs().contains_key(k@),
    {
        let pos = position(&self.input_tables, k);
        proof {
            if let Some(i) = pos {
                assert(keys_of(self.input_tables@)[i as int] == k@);
            }
        }
        pos.is_some()
    }

    /// The input table registered under `k`.
    ///
    /// An actor asks only for tables that it has registered: a key under
    /// which there is none is a fault of the actor, and there is no way to
    /// go on from it. [`State::has_input`] tells whether there is one.
    pub fn input(&mut self, k: Key<'_>) -> (table: &mut InputTable<I>)
        requires
            old(self).wf(),
            old(self).inputs().contains_key(k@),
        ensures
            *table == old(self).inputs()[k@],
            table.wf(),
            final(self).inputs() == old(self).inputs().insert(k@, *final(table)),
            final(self).outputs() == old(self).outputs(),
            final(self).output_keys() == old(self).output_keys(),
            final(table).wf() ==> final(self).wf(),
    {
        let i = position(&self.input_tables, &k).unwrap();
        proof {
            lemma_table_at(self.input_tables@, i as int);
        }
        let ghost before = self.input_tables@;
        let table = &mut self.input_tables[i].1;
        proof {
            let after = before.update(i as int, (before[i as int].0, *final(table)));
            lemma_table_update(before, i as int, *final(table));
            assert forall|j: int| 0 <= j < after.len() && final(table).wf() implies (
            #[trigger] after[j]).1.wf() by {
                if j != i {
                    assert(after[j] == before[j]);
                }
            }
        }
        table
    }

    /// Drains the dirty output tables: hands out every output table that is
    /// dirty, in draining order, and clears its flag.
    pub fn iter_dirty_output_tables(&mut self) -> (dirty: Vec<&OutputTable<O>>)
        requires
            old(self).wf(),
        ensures
            final(self).wf(),
            old(self).drained(final(self)),
            dirty@.len() == old(self).dirty_tables().len(),
            forall|m: int| 0 <= m < dirty@.len() ==>
                *(#[trigger] dirty@[m]) == old(self).dirty_tables()[m],
    {
        let ghost before = self.output_tables@;
        let ghost is_dirty = Self::is_dirty();
        let ghost clean = Self::clean();
        let ghost mut result: Seq<OutputTable<O>> = Seq::empty();
        let n = self.output_tables.len();
        let mut found: Vec<usize> = Vec::new();
        let mut i: usize = 0;
        proof {
            assert(tables_of(before).take(0) =~= Seq::empty());
        }
        while i < n
            invariant
                i <= n,
                n == before.len(),
                self.output_tables@.len() == n,
                self.input_tables == old(self).input_tables,
                before == old(self).output_tables@,
                old(self).wf(),
                is_dirty == Self::is_dirty(),
                clean == Self::clean(),
                forall|j: int|
                    0 <= j < n ==> (#[trigger] self.output_tables@[j]).0 == before[j].0,
                forall|j: int|
                    0 <= j < i ==> (#[trigger] self.output_tables@[j]).1 == before[j].1.cleaned(),
                forall|j: int| i <= j < n ==> (#[trigger] self.output_tables@[j]).1 == before[j].1,
                result == tables_of(before).take(i as int).filter(is_dirty).map_values(clean),
                found@.len() == result.len(),
                forall|m: int|
                    0 <= m < found@.len() ==>
                        (#[trigger] found@[m]) < i && before[found@[m] as int].1.cleaned()
                        == result[m],
            decreases n - i,
        {
            proof {
                let ts = tables_of(before);
                let t = before[i as int].1;
                assert(ts[i as int] == t);
                assert(self.output_tables@[i as int].1 == t);
                ts.lemma_take_succ_push(i as int);
                ts.take(i as int).lemma_filter_push(t, is_dirty);
                if t.dirty() {
                    assert(is_dirty(t));
                    ts.take(i as int).filter(is_dirty).lemma_push_map_commute(clean, t);
                    assert(ts.take(i + 1).filter(is_dirty).map_values(clean) == result.push(
                        t.cleaned(),
                    ));
                } else {
                    assert(!is_dirty(t));
                    assert(ts.take(i + 1).filter(is_dirty).map_values(clean) == result);
                }
            }
            if self.output_tables[i].1.dirty {
                self.output_tables[i].1.dirty = false;
                found.push(i);
                proof {
                    result = result.push(before[i as int].1.cleaned());
                }
            }
            i += 1;
        }
        proof {
            assert(tables_of(before).take(n as int) =~= tables_of(before));
            assert(keys_of(self.output_tables@) =~= keys_of(before));
            assert(tables_of(self.output_tables@) =~= tables_of(before).map_values(clean));
        }
        let this = &*self;
        let mut dirty: Vec<&OutputTable<O>> = Vec::new();
        let mut m: usize = 0;
        while m < found.len()
            invariant
                m <= found.len(),
                found@.len() == result.len(),
                this.output_tables@.len() == n,
                n == before.len(),
                forall|j: int| 0 <= j < n ==>
                    (#[trigger] this.output_tables@[j]).1 == before[j].1.cleaned(),
                forall|j: int|
                    0 <= j < found@.len() ==>
                        (#[trigger] found@[j]) < n && before[found@[j] as int].1.cleaned()
                        == result[j],
                dirty@.len() == m,
                forall|j: int| 0 <= j < m ==> *(#[trigger] dirty@[j]) == result[j],
            decreases found.len() - m,
        {
            dirty.push(&this.output_tables[found[m]].1);
            m += 1;
        }
        dirty
    }

    /// Whether an output table is registered under `k`.
    pub fn has_output(&self, k: &Key<'_>) -> (registered: bool)
        ensures
            registered == self.outputs().contains_key(k@),
    {
        let pos = position(&self.output_tables, k);
        proof {
            if let Some(i) = pos {
                assert(keys_of(self.output_tables@)[i as int] == k@);
            }
        }
        pos.is_some()
    }

    /// The output table registered under `k`.
    ///
    /// An actor asks only for tables that it has registered: a key under
    /// which there is none is a fault of the actor, and there is no way to
    /// go on from it. [`State::has_output`] tells whether there is one.
    pub fn output(&mut self, k: Key<'_>) -> (table: &mut OutputTable<O>)
        requires
            old(self).wf(),
            old(self).outputs().contains_key(k@),
        ensures
            *table == old(self).outputs()[k@],
            table.wf(),
            final(self).outputs() == old(self).outputs().insert(k@, *final(table)),
            final(self).inputs() == old(self).inputs(),
            final(self).output_keys() == old(self).output_keys(),
            final(table).wf() ==> final(self).wf(),
    {
        let i = position(&self.output_tables, &k).unwrap();
        proof {
            lemma_table_at(self.output_tables@, i as int);
        }
        let ghost before = self.output_tables@;
        let table = &mut self.output_tables[i].1;
        proof {
            let after = before.update(i as int, (before[i as int].0, *final(table)));
            lemma_table_update(before, i as int, *final(table));
            assert forall|j: int| 0 <= j < after.len() && final(table).wf() implies (
            #[trigger] after[j]).1.wf() by {
                if j != i {
                    assert(after[j] == before[j]);
                }
            }
        }
        table
    }
}

impl<I: ToFromFieldValues, O: ToFromFieldValues> Default for State<I, O> {
    fn default() -> (state: Self)
        ensures
            state.wf(),
            state.inputs() == Map::<KeyView, InputTable<I>>::empty(),
            state.outputs() == Map::<KeyView, OutputTable<O>>::empty(),
            state.output_keys() == Seq::<KeyView>::empty(),
    {
        State::new()
    }
}

} // verus!

//! Identifiers of tables and of rows within tables.
//!
//! A [`Key`] names one row: a database, a table in it and a row id. It can
//! borrow its three parts or own them; both forms have the same view, and
//! equality is decided on the view alone. [`OwnedKey`] is the owned form
//! behind a shared pointer, cheap to clone and fit for storage.

use crate::text::{str_eq, str_lt, text_lt};
use std::cmp::Ordering;
use std::borrow::Cow;
use std::sync::Arc;
use vstd::prelude::*;
use vstd::string::StringExecFns;

verus! {

/// What a [`Key`] stands for: the three names, as sequences of characters.
pub struct KeyView {
    pub db: Seq<char>,
    pub table: Seq<char>,
    pub key: Seq<char>,
}

/// What a [`TableId`] stands for: a database and a table in it.
pub struct TableIdView {
    pub db: Seq<char>,
    pub table: Seq<char>,
}

/// How two texts compare.
pub open spec fn text_order(a: Seq<char>, b: Seq<char>) -> Ordering {
    if a == b {
        Ordering::Equal
    } else if text_lt(a, b) {
        Ordering::Less
    } else {
        Ordering::Greater
    }
}

/// How two keys compare: by database, then by table, then by row id.
pub open spec fn key_order(a: KeyView, b: KeyView) -> Ordering {
    if a.db != b.db {
        text_order(a.db, b.db)
    } else if a.table != b.table {
        text_order(a.table, b.table)
    } else {
        text_order(a.key, b.key)
    }
}

/// How two table ids compare: by database, then by table.
pub open spec fn table_id_order(a: TableIdView, b: TableIdView) -> Ordering {
    if a.db != b.db {
        text_order(a.db, b.db)
    } else {
        text_order(a.table, b.table)
    }
}

/// How two string slices compare.
fn str_order(a: &str, b: &str) -> (order: Ordering)
    ensures
        order == text_order(a@, b@),
{
    if str_eq(a, b) {
        Ordering::Equal
    } else if str_lt(a, b) {
        Ordering::Less
    } else {
        Ordering::Greater
    }
}

/// The string slice that a `Cow` stands for, whichever form it has.
fn cow_str<'a>(c: &'a Cow<'_, str>) -> (s: &'a str)
    ensures
        s@ == c@,
{
    match c {
        Cow::Borrowed(b) => b,
        Cow::Owned(o) => o.as_str(),
    }
}

/// A copy of a `Cow` in the same form: a borrow stays a borrow.
fn cow_clone<'a>(c: &Cow<'a, str>) -> (copy: Cow<'a, str>)
    ensures
        copy@ == c@,
{
    match c {
        Cow::Borrowed(b) => Cow::Borrowed(*b),
        Cow::Owned(o) => Cow::Owned(o.clone()),
    }
}

/// An owned string with the characters of a `Cow`.
fn cow_into_owned(c: Cow<'_, str>) -> (s: String)
    ensures
        s@ == c@,
{
    match c {
        Cow::Borrowed(b) => b.to_owned(),
        Cow::Owned(o) => o,
    }
}

/// Identifier of a single row of a table.
#[derive(Debug, Eq, Ord, Hash)]
pub struct Key<'a> {
    db: Cow<'a, str>,
    table: Cow<'a, str>,
    key: Cow<'a, str>,
}

impl<'a> View for Key<'a> {
    type V = KeyView;

    closed spec fn view(&self) -> KeyView {
        KeyView { db: self.db@, table: self.table@, key: self.key@ }
    }
}

impl<'a> Key<'a> {
    /// A key that borrows its three parts.
    pub fn new(db: &'a str, table: &'a str, key: &'a str) -> (k: Self)
        ensures
            k@ == (KeyView { db: db@, table: table@, key: key@ }),
    {
        Self { db: Cow::Borrowed(db), table: Cow::Borrowed(table), key: Cow::Borrowed(key) }
    }

    /// A key that owns its three parts.
    pub fn new_owned(db: String, table: String, key: String) -> (k: Key<'static>)
        ensures
            k@ == (KeyView { db: db@, table: table@, key: key@ }),
    {
        Key { db: Cow::Owned(db), table: Cow::Owned(table), key: Cow::Owned(key) }
    }

    /// A borrowed key for the same row.
    pub fn as_ref(&self) -> (k: Key<'_>)
        ensures
            k@ == self@,
    {
        Key {
            db: Cow::Borrowed(cow_str(&self.db)),
            table: Cow::Borrowed(cow_str(&self.table)),
            key: Cow::Borrowed(cow_str(&self.key)),
        }
    }

    /// The owned, shareable key for the same row.
    pub fn into_owned_key(self) -> (k: OwnedKey)
        ensures
            k@ == self@,
    {
        OwnedKey::new(
            cow_into_owned(self.db),
            cow_into_owned(self.table),
            cow_into_owned(self.key),
        )
    }

    /// The key as text: the three names with colons between them.
    pub fn to_string(&self) -> (text: String)
        ensures
            text@ == self@.db + ":"@ + self@.table + ":"@ + self@.key,
    {
        let mut text = cow_str(&self.db).to_owned();
        text.append(":");
        text.append(cow_str(&self.table));
        text.append(":");
        text.append(cow_str(&self.key));
        text
    }

    /// The database name.
    pub fn db(&self) -> (s: &str)
        ensures
            s@ == self@.db,
    {
        cow_str(&self.db)
    }

    /// The table name.
    pub fn table(&self) -> (s: &str)
        ensures
            s@ == self@.table,
    {
        cow_str(&self.table)
    }

    /// The row id.
    pub fn key(&self) -> (s: &str)
        ensures
            s@ == self@.key,
    {
        cow_str(&self.key)
    }
}

impl<'a> Clone for Key<'a> {
    fn clone(&self) -> (k: Self)
        ensures
            k@ == self@,
    {
        Key { db: cow_clone(&self.db), table: cow_clone(&self.table), key: cow_clone(&self.key) }
    }
}

impl<'a> PartialEq for Key<'a> {
    fn eq(&self, other: &Self) -> (same: bool) {
        str_eq(cow_str(&self.db), cow_str(&other.db)) && str_eq(
            cow_str(&self.table),
            cow_str(&other.table),
        ) && str_eq(cow_str(&self.key), cow_str(&other.key))
    }
}

impl<'a> vstd::std_specs::cmp::PartialEqSpecImpl for Key<'a> {
    open spec fn obeys_eq_spec() -> bool {
        true
    }

    open spec fn eq_spec(&self, other: &Self) -> bool {
        self@ == other@
    }
}

impl<'a> PartialOrd for Key<'a> {
    fn partial_cmp(&self, other: &Self) -> (order: Option<Ordering>) {
        if !str_eq(cow_str(&self.db), cow_str(&other.db)) {
            Some(str_order(cow_str(&self.db), cow_str(&other.db)))
        } else if !str_eq(cow_str(&self.table), cow_str(&other.table)) {
            Some(str_order(cow_str(&self.table), cow_str(&other.table)))
        } else {
            Some(str_order(cow_str(&self.key), cow_str(&other.key)))
        }
    }
}

impl<'a> vstd::std_specs::cmp::PartialOrdSpecImpl for Key<'a> {
    open spec fn obeys_partial_cmp_spec() -> bool {
        true
    }

    open spec fn partial_cmp_spec(&self, other: &Self) -> Option<Ordering> {
        Some(key_order(self@, other@))
    }
}

impl<'a> From<(&'a str, &'a str, &'a str)> for Key<'a> {
    fn from(tup: (&'a str, &'a str, &'a str)) -> (k: Self)
        ensures
            k@ == (KeyView { db: tup.0@, table: tup.1@, key: tup.2@ }),
    {
        Key { db: Cow::Borrowed(tup.0), table: Cow::Borrowed(tup.1), key: Cow::Borrowed(tup.2) }
    }
}

impl<'a> vstd::std_specs::convert::FromSpecImpl<(&'a str, &'a str, &'a str)> for Key<'a> {
    open spec fn obeys_from_spec() -> bool {
        true
    }

    closed spec fn from_spec(tup: (&'a str, &'a str, &'a str)) -> Self {
        Key { db: Cow::Borrowed(tup.0), table: Cow::Borrowed(tup.1), key: Cow::Borrowed(tup.2) }
    }
}

/// Another pointer to the value that `a` points to (`Arc::clone`).
#[verifier::external_body]
fn arc_clone<T>(a: &Arc<T>) -> (copy: Arc<T>)
    ensures
        copy == *a,
{
    Arc::clone(a)
}

/// An always owned, shareable [`Key`], fit for storage in a collection.
#[derive(Debug, Eq, Ord, Hash)]
pub struct OwnedKey(Arc<Key<'static>>);

impl View for OwnedKey {
    type V = KeyView;

    closed spec fn view(&self) -> KeyView {
        (*self.0)@
    }
}

impl OwnedKey {
    /// The owned key made of the three names.
    pub fn new(db: String, table: String, key: String) -> (k: Self)
        ensures
            k@ == (KeyView { db: db@, table: table@, key: key@ }),
    {
        OwnedKey(Arc::new(Key::new_owned(db, table, key)))
    }

    /// The key as text: the three names with colons between them.
    pub fn to_string(&self) -> (text: String)
        ensures
            text@ == self@.db + ":"@ + self@.table + ":"@ + self@.key,
    {
        self.borrow().to_string()
    }

    /// The key that this owned key holds.
    pub fn borrow(&self) -> (k: &Key<'static>)
        ensures
            k@ == self@,
    {
        &*self.0
    }
}

impl<'a> std::borrow::Borrow<Key<'a>> for OwnedKey {
    fn borrow(&self) -> (k: &Key<'a>)
        ensures
            k@ == self@,
    {
        &*self.0
    }
}

impl std::ops::Deref for OwnedKey {
    type Target = Key<'static>;

    fn deref(&self) -> (k: &Key<'static>)
        ensures
            k@ == self@,
    {
        &*self.0
    }
}

impl Clone for OwnedKey {
    fn clone(&self) -> (k: Self)
        ensures
            k@ == self@,
    {
        OwnedKey(arc_clone(&self.0))
    }
}

impl PartialEq for OwnedKey {
    fn eq(&self, other: &Self) -> (same: bool) {
        self.borrow().eq(other.borrow())
    }
}

impl vstd::std_specs::cmp::PartialEqSpecImpl for OwnedKey {
    open spec fn obeys_eq_spec() -> bool {
        true
    }

    open spec fn eq_spec(&self, other: &Self) -> bool {
        self@ == other@
    }
}

impl PartialOrd for OwnedKey {
    fn partial_cmp(&self, other: &Self) -> (order: Option<Ordering>) {
        self.borrow().partial_cmp(other.borrow())
    }
}

impl vstd::std_specs::cmp::PartialOrdSpecImpl for OwnedKey {
    open spec fn obeys_partial_cmp_spec() -> bool {
        true
    }

    open spec fn partial_cmp_spec(&self, other: &Self) -> Option<Ordering> {
        Some(key_order(self@, other@))
    }
}

/// Identifier of a whole table: a [`Key`] without its row id.
#[derive(Debug, Eq, Ord, Hash)]
pub struct TableId<'a> {
    db: Cow<'a, str>,
    table: Cow<'a, str>,
}

impl<'a> View for TableId<'a> {
    type V = TableIdView;

    closed spec fn view(&self) -> TableIdView {
        TableIdView { db: self.db@, table: self.table@ }
    }
}

impl<'a> TableId<'a> {
    /// A table id that owns its two parts.
    pub fn new(db: String, table: String) -> (t: Self)
        ensures
            t@ == (TableIdView { db: db@, table: table@ }),
    {
        Self { db: Cow::Owned(db), table: Cow::Owned(table) }
    }

    /// The id as text: the two names with a colon between them.
    pub fn to_string(&self) -> (text: String)
        ensures
            text@ == self@.db + ":"@ + self@.table,
    {
        let mut text = cow_str(&self.db).to_owned();
        text.append(":");
        text.append(cow_str(&self.table));
        text
    }

    /// The id of the table that the row `key` lies in, borrowing from `key`.
    pub fn of_key(key: &'a Key<'a>) -> (t: Self)
        ensures
            t@ == (TableIdView { db: key@.db, table: key@.table }),
    {
        Self { db: Cow::Borrowed(key.db()), table: Cow::Borrowed(key.table()) }
    }

    /// The database name.
    pub fn db(&self) -> (s: &str)
        ensures
            s@ == self@.db,
    {
        cow_str(&self.db)
    }

    /// The table name.
    pub fn table(&self) -> (s: &str)
        ensures
            s@ == self@.table,
    {
        cow_str(&self.table)
    }
}

impl<'a> Clone for TableId<'a> {
    fn clone(&self) -> (t: Self)
        ensures
            t@ == self@,
    {
        TableId { db: cow_clone(&self.db), table: cow_clone(&self.table) }
    }
}

impl<'a> PartialEq for TableId<'a> {
    fn eq(&self, other: &Self) -> (same: bool) {
        str_eq(cow_str(&self.db), cow_str(&other.db)) && str_eq(
            cow_str(&self.table),
            cow_str(&other.table),
        )
    }
}

impl<'a> vstd::std_specs::cmp::PartialEqSpecImpl for TableId<'a> {
    open spec fn obeys_eq_spec() -> bool {
        true
    }

    open spec fn eq_spec(&self, other: &Self) -> bool {
        self@ == other@
    }
}

impl<'a> PartialOrd for TableId<'a> {
    fn partial_cmp(&self, other: &Self) -> (order: Option<Ordering>) {
        if !str_eq(cow_str(&self.db), cow_str(&other.db)) {
            Some(str_order(cow_str(&self.db), cow_str(&other.db)))
        } else {
            Some(str_order(cow_str(&self.table), cow_str(&other.table)))
        }
    }
}

impl<'a> vstd::std_specs::cmp::PartialOrdSpecImpl for TableId<'a> {
    open spec fn obeys_partial_cmp_spec() -> bool {
        true
    }

    open spec fn partial_cmp_spec(&self, other: &Self) -> Option<Ordering> {
        Some(table_id_order(self@, other@))
    }
}

/// An always owned, shareable [`TableId`].
#[derive(Debug, Eq, Ord, Hash)]
pub struct OwnedTableId(Arc<TableId<'static>>);

impl View for OwnedTableId {
    type V = TableIdView;

    closed spec fn view(&self) -> TableIdView {
        (*self.0)@
    }
}

impl OwnedTableId {
    /// The owned table id made of the two names.
    pub fn new(db: String, table: String) -> (t: Self)
        ensures
            t@ == (TableIdView { db: db@, table: table@ }),
    {
        OwnedTableId(Arc::new(TableId::new(db, table)))
    }

    /// The id as text: the two names with a colon between them.
    pub fn to_string(&self) -> (text: String)
        ensures
            text@ == self@.db + ":"@ + self@.table,
    {
        self.borrow().to_string()
    }

    /// The table id that this owned id holds.
    pub fn borrow(&self) -> (t: &TableId<'static>)
        ensures
            t@ == self@,
    {
        &*self.0
    }
}

impl<'a> std::borrow::Borrow<TableId<'a>> for OwnedTableId {
    fn borrow(&self) -> (t: &TableId<'a>)
        ensures
            t@ == self@,
    {
        &*self.0
    }
}

impl std::ops::Deref for OwnedTableId {
    type Target = TableId<'static>;

    fn deref(&self) -> (t: &TableId<'static>)
        ensures
            t@ == self@,
    {
        &*self.0
    }
}

impl Clone for OwnedTableId {
    fn clone(&self) -> (t: Self)
        ensures
            t@ == self@,
    {
        OwnedTableId(arc_clone(&self.0))
    }
}

impl PartialEq for OwnedTableId {
    fn eq(&self, other: &Self) -> (same: bool) {
        self.borrow().eq(other.borrow())
    }
}

impl vstd::std_specs::cmp::PartialEqSpecImpl for OwnedTableId {
    open spec fn obeys_eq_spec() -> bool {
        true
    }

    open spec fn eq_spec(&self, other: &Self) -> bool {
        self@ == other@
    }
}

impl PartialOrd for OwnedTableId {
    fn partial_cmp(&self, other: &Self) -> (order: Option<Ordering>) {
        self.borrow().partial_cmp(other.borrow())
    }
}

impl vstd::std_specs::cmp::PartialOrdSpecImpl for OwnedTableId {
    open spec fn obeys_partial_cmp_spec() -> bool {
        true
    }

    open spec fn partial_cmp_spec(&self, other: &Self) -> Option<Ordering> {
        Some(table_id_order(self@, other@))
    }
}

} // verus!

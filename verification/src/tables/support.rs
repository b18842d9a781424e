//! How the fields of a row are written and read, one value at a time.
//!
//! A value is written as a text, and the text as its UTF-8 bytes. Reading
//! goes the other way. A value is *writable* if it reads back as itself;
//! [`ToFromFieldValue::lemma_round_trip`] is the proof that every writable
//! value does.

use crate::codec::{FieldValueError, FieldValueErrorView};
use crate::row::FieldValues;
use crate::text::{
    comma_pieces, decimal_digits, has_comma, join_commas, lemma_decimal_round_trip,
    lemma_split_join, parse_u64, split_commas, to_string_lossy, u64_error_text, u64_to_string,
    unsigned_from_str, utf8_lossy,
};
use vstd::prelude::*;
use vstd::string::{StrSliceExecFns, StringExecFns};
use vstd::utf8::{encode_utf8, encode_utf8_decode_utf8, encode_utf8_valid_utf8};

verus! {

/// A type whose values are stored in a field of a row.
pub trait ToFromFieldValue: Sized {
    /// What a value stands for in contracts.
    type Model;

    /// What `self` stands for.
    spec fn model(&self) -> Self::Model;

    /// The text that a value is written as.
    spec fn to_text(v: Self::Model) -> Seq<char>;

    /// The value that a text is read as, if it is read as one.
    spec fn from_text(s: Seq<char>) -> Option<Self::Model>;

    /// The text of the error for a text that is not read as a value.
    spec fn error_text(s: Seq<char>) -> Seq<char>;

    /// The text that the error for a text that is not read as a value shows
    /// as its data: the text as read, or a normal form of it.
    spec fn error_data(s: Seq<char>) -> Seq<char>;

    /// Whether a value can be written so that it reads back as itself.
    spec fn writable(v: Self::Model) -> bool;

    /// A writable value reads back as itself.
    proof fn lemma_round_trip(v: Self::Model)
        requires
            Self::writable(v),
        ensures
            Self::from_text(Self::to_text(v)) == Some(v),
    ;

    /// Whether the value is writable.
    fn is_writable(&self) -> (writable: bool)
        ensures
            writable == Self::writable(self.model()),
    ;

    /// Writes the value as a text.
    fn write_text(&self) -> (text: String)
        ensures
            text@ == Self::to_text(self.model()),
    ;

    /// The text that an error shows as its data for the text `text`.
    fn shown(text: String) -> (data: String)
        ensures
            data@ == Self::error_data(text@),
    ;

    /// Reads a value from a text; else gives the text of the error.
    fn read_text(s: &str) -> (r: Result<Self, String>)
        ensures
            match r {
                Ok(v) => Self::from_text(s@) == Some(v.model()),
                Err(e) => Self::from_text(s@) is None && e@ == Self::error_text(s@),
            },
    ;
}

/// What a text without a row around it was not read as a value for.
#[derive(Debug)]
pub enum FromFieldValueError {
    /// There is no value.
    Missing,
    /// There is a value, but it is not read as one of the type asked for.
    Invalid { data: String, error: String },
}

/// The bytes that a value is written as: the UTF-8 encoding of its text.
pub open spec fn to_value_spec<T: ToFromFieldValue>(v: T::Model) -> Seq<u8> {
    encode_utf8(T::to_text(v))
}

/// The value that the bytes of a field are read as.
pub open spec fn from_value_spec<T: ToFromFieldValue>(bytes: Seq<u8>) -> Option<T::Model> {
    T::from_text(utf8_lossy(bytes))
}

/// What reading the field `field` of `row` as a `T` gives: the field has to
/// be there, and its bytes have to be read as a value.
pub open spec fn field_spec<T: ToFromFieldValue>(
    row: Map<Seq<char>, Seq<u8>>,
    field: Seq<char>,
) -> Result<T::Model, FieldValueErrorView> {
    if row.contains_key(field) {
        match from_value_spec::<T>(row[field]) {
            Some(v) => Ok(v),
            None => Err(
                FieldValueErrorView::Invalid {
                    field,
                    data: T::error_data(utf8_lossy(row[field])),
                    error: T::error_text(utf8_lossy(row[field])),
                },
            ),
        }
    } else {
        Err(FieldValueErrorView::Missing { field })
    }
}

/// The text of the error for a value that is not writable.
pub open spec fn not_writable_text() -> Seq<char> {
    "value does not read back as written"@
}

/// The error for the field `field` whose value `v` is not writable.
pub open spec fn not_writable_spec<T: ToFromFieldValue>(
    field: Seq<char>,
    v: T::Model,
) -> FieldValueErrorView {
    FieldValueErrorView::Invalid { field, data: T::to_text(v), error: not_writable_text() }
}

/// The error for the field `field` whose value is not writable.
pub fn not_writable<T: ToFromFieldValue>(field: &'static str, value: &T) -> (e: FieldValueError)
    ensures
        e@ == not_writable_spec::<T>(field@, value.model()),
{
    FieldValueError::Invalid {
        field,
        data: value.write_text(),
        error: "value does not read back as written".to_owned(),
    }
}

/// The bytes that a writable value is written as are read back as the value.
pub proof fn lemma_value_round_trip<T: ToFromFieldValue>(v: T::Model)
    requires
        T::writable(v),
    ensures
        from_value_spec::<T>(to_value_spec::<T>(v)) == Some(v),
        forall|row: Map<Seq<char>, Seq<u8>>, field: Seq<char>|
            row.contains_key(field) && row[field] == to_value_spec::<T>(v) ==>
                #[trigger] field_spec::<
                T,
            >(row, field) == Ok::<T::Model, FieldValueErrorView>(v),
{
    let text = T::to_text(v);
    encode_utf8_valid_utf8(text);
    encode_utf8_decode_utf8(text);
    T::lemma_round_trip(v);
}

/// Writes a value as the bytes of a field.
pub fn to_field_value<T: ToFromFieldValue>(value: &T) -> (bytes: Vec<u8>)
    ensures
        bytes@ == to_value_spec::<T>(value.model()),
{
    let text = value.write_text();
    text.as_str().as_bytes_vec()
}

/// Reads a value from the bytes of a field.
pub fn from_field_value<T: ToFromFieldValue>(value: Option<&Vec<u8>>) -> (r: Result<
    T,
    FromFieldValueError,
>)
    ensures
        match r {
            Ok(v) => value matches Some(bytes) && from_value_spec::<T>(bytes@) == Some(v.model()),
            Err(FromFieldValueError::Missing) => value is None,
            Err(FromFieldValueError::Invalid { data, error }) => value matches Some(bytes)
                && from_value_spec::<T>(bytes@) is None && data@ == T::error_data(
                utf8_lossy(bytes@),
            ) && error@ == T::error_text(utf8_lossy(bytes@)),
        },
{
    match value {
        None => Err(FromFieldValueError::Missing),
        Some(bytes) => {
            let text = to_string_lossy(bytes);
            match T::read_text(text.as_str()) {
                Ok(v) => Ok(v),
                Err(error) => Err(FromFieldValueError::Invalid { data: T::shown(text), error }),
            }
        },
    }
}

/// Reads the field `name` of `fvs` as a `T`.
pub fn parse_field_value<T: ToFromFieldValue>(name: &'static str, fvs: &FieldValues) -> (r: Result<
    T,
    FieldValueError,
>)
    ensures
        match r {
            Ok(v) => field_spec::<T>(fvs@, name@) == Ok::<T::Model, FieldValueErrorView>(
                v.model(),
            ),
            Err(e) => field_spec::<T>(fvs@, name@) == Err::<T::Model, FieldValueErrorView>(e@),
        },
{
    match from_field_value::<T>(fvs.get(name)) {
        Ok(v) => Ok(v),
        Err(FromFieldValueError::Missing) => Err(FieldValueError::Missing { field: name }),
        Err(FromFieldValueError::Invalid { data, error }) => Err(
            FieldValueError::Invalid { field: name, data, error },
        ),
    }
}

impl ToFromFieldValue for String {
    type Model = Seq<char>;

    open spec fn model(&self) -> Seq<char> {
        self@
    }

    open spec fn to_text(v: Seq<char>) -> Seq<char> {
        v
    }

    open spec fn from_text(s: Seq<char>) -> Option<Seq<char>> {
        Some(s)
    }

    open spec fn error_text(s: Seq<char>) -> Seq<char> {
        Seq::empty()
    }

    open spec fn error_data(s: Seq<char>) -> Seq<char> {
        s
    }

    open spec fn writable(v: Seq<char>) -> bool {
        true
    }

    proof fn lemma_round_trip(v: Seq<char>) {
    }

    fn is_writable(&self) -> (writable: bool) {
        true
    }

    fn write_text(&self) -> (text: String) {
        self.clone()
    }

    fn shown(text: String) -> (data: String) {
        text
    }

    fn read_text(s: &str) -> (r: Result<Self, String>) {
        Ok(s.to_owned())
    }
}

impl ToFromFieldValue for u64 {
    type Model = u64;

    open spec fn model(&self) -> u64 {
        *self
    }

    open spec fn to_text(v: u64) -> Seq<char> {
        decimal_digits(v as nat)
    }

    open spec fn from_text(s: Seq<char>) -> Option<u64> {
        match unsigned_from_str(s, u64::MAX as nat) {
            Some(n) => Some(n as u64),
            None => None,
        }
    }

    open spec fn error_text(s: Seq<char>) -> Seq<char> {
        u64_error_text(s)
    }

    open spec fn error_data(s: Seq<char>) -> Seq<char> {
        s
    }

    open spec fn writable(v: u64) -> bool {
        true
    }

    proof fn lemma_round_trip(v: u64) {
        lemma_decimal_round_trip(v as nat, u64::MAX as nat);
    }

    fn is_writable(&self) -> (writable: bool) {
        true
    }

    fn write_text(&self) -> (text: String) {
        u64_to_string(*self)
    }

    fn shown(text: String) -> (data: String) {
        text
    }

    fn read_text(s: &str) -> (r: Result<Self, String>) {
        parse_u64(s)
    }
}

/// The models of a list of values, in order.
pub open spec fn models<T: ToFromFieldValue>(values: Seq<T>) -> Seq<T::Model> {
    values.map_values(|v: T| v.model())
}

/// The texts that a list of values is written as, in order.
pub open spec fn texts<T: ToFromFieldValue>(values: Seq<T::Model>) -> Seq<Seq<char>> {
    values.map_values(|v: T::Model| T::to_text(v))
}

/// The values that a list of texts is read as, if every text is read as one.
pub open spec fn read_pieces<T: ToFromFieldValue>(pieces: Seq<Seq<char>>) -> Option<Seq<T::Model>>
    decreases pieces.len(),
{
    if pieces.len() == 0 {
        Some(Seq::empty())
    } else {
        match (read_pieces::<T>(pieces.drop_last()), T::from_text(pieces.last())) {
            (Some(values), Some(v)) => Some(values.push(v)),
            _ => None,
        }
    }
}

/// The text of the error of the first text in a list that is not read as a
/// value.
pub open spec fn first_error_text<T: ToFromFieldValue>(pieces: Seq<Seq<char>>) -> Seq<char>
    decreases pieces.len(),
{
    if pieces.len() == 0 {
        Seq::empty()
    } else if read_pieces::<T>(pieces.drop_last()) is None {
        first_error_text::<T>(pieces.drop_last())
    } else {
        T::error_text(pieces.last())
    }
}

/// Writable values that are written as texts are read back from the texts.
pub proof fn lemma_read_written<T: ToFromFieldValue>(values: Seq<T::Model>)
    requires
        forall|i: int| 0 <= i < values.len() ==> T::writable(#[trigger] values[i]),
    ensures
        read_pieces::<T>(texts::<T>(values)) == Some(values),
    decreases values.len(),
{
    if values.len() == 0 {
        assert(texts::<T>(values) =~= Seq::empty());
    } else {
        let front = values.drop_last();
        assert forall|i: int| 0 <= i < front.len() implies T::writable(#[trigger] front[i]) by {
            assert(front[i] == values[i]);
        }
        lemma_read_written::<T>(front);
        assert(texts::<T>(values).drop_last() =~= texts::<T>(front));
        assert(texts::<T>(values).last() == T::to_text(values.last()));
        T::lemma_round_trip(values.last());
        assert(front.push(values.last()) =~= values);
    }
}

/// Once a prefix of a list of texts is not read, no longer prefix is, and
/// the error stays that of the first text that is not read.
proof fn lemma_unread_stays<T: ToFromFieldValue>(pieces: Seq<Seq<char>>, n: int)
    requires
        0 <= n <= pieces.len(),
        read_pieces::<T>(pieces.take(n)) is None,
    ensures
        read_pieces::<T>(pieces) is None,
        first_error_text::<T>(pieces) == first_error_text::<T>(pieces.take(n)),
    decreases pieces.len() - n,
{
    if n == pieces.len() {
        assert(pieces.take(n) =~= pieces);
    } else {
        assert(pieces.take(n + 1).drop_last() =~= pieces.take(n));
        lemma_unread_stays::<T>(pieces, n + 1);
    }
}

/// A list is stored as the texts of its values, joined by commas; the
/// empty list as the empty text. It is writable if its values are, if none
/// of their texts holds a comma, and if it is not the one empty text, which
/// would read back as the empty list.
impl<T: ToFromFieldValue> ToFromFieldValue for Vec<T> {
    type Model = Seq<T::Model>;

    open spec fn model(&self) -> Seq<T::Model> {
        models(self@)
    }

    open spec fn to_text(v: Seq<T::Model>) -> Seq<char> {
        join_commas(texts::<T>(v))
    }

    open spec fn from_text(s: Seq<char>) -> Option<Seq<T::Model>> {
        if s.len() == 0 {
            Some(Seq::empty())
        } else {
            read_pieces::<T>(comma_pieces(s))
        }
    }

    open spec fn error_text(s: Seq<char>) -> Seq<char> {
        first_error_text::<T>(comma_pieces(s))
    }

    open spec fn error_data(s: Seq<char>) -> Seq<char> {
        s
    }

    open spec fn writable(v: Seq<T::Model>) -> bool {
        &&& forall|i: int|
            0 <= i < v.len() ==> T::writable(#[trigger] v[i]) && !T::to_text(v[i]).contains(',')
        &&& !(v.len() == 1 && T::to_text(v[0]).len() == 0)
    }

    proof fn lemma_round_trip(v: Seq<T::Model>) {
        if v.len() == 0 {
            assert(texts::<T>(v) =~= Seq::empty());
        } else {
            let pieces = texts::<T>(v);
            assert forall|i: int| 0 <= i < pieces.len() implies !(#[trigger] pieces[i]).contains(
                ',',
            ) by {
                assert(pieces[i] == T::to_text(v[i]));
            }
            assert(pieces[0] == T::to_text(v[0]));
            lemma_split_join(pieces);
            lemma_read_written::<T>(v);
        }
    }

    fn is_writable(&self) -> (writable: bool) {
        let mut i: usize = 0;
        while i < self.len()
            invariant
                i <= self.len(),
                forall|j: int|
                    0 <= j < i ==> T::writable(#[trigger] models(self@)[j]) && !T::to_text(
                        models(self@)[j],
                    ).contains(','),
                self.len() == 1 && i > 0 ==> T::to_text(models(self@)[0]).len() > 0,
            decreases self.len() - i,
        {
            assert(models(self@)[i as int] == self@[i as int].model());
            if !self[i].is_writable() {
                return false;
            }
            let text = self[i].write_text();
            if has_comma(text.as_str()) {
                return false;
            }
            if self.len() == 1 && text.as_str().is_empty() {
                return false;
            }
            i += 1;
        }
        true
    }

    fn write_text(&self) -> (text: String) {
        let mut text = String::new();
        let mut i: usize = 0;
        proof {
            assert(texts::<T>(models(self@)).take(0) =~= Seq::empty());
        }
        while i < self.len()
            invariant
                i <= self.len(),
                text@ == join_commas(texts::<T>(models(self@)).take(i as int)),
            decreases self.len() - i,
        {
            let ghost all = texts::<T>(models(self@));
            proof {
                assert(all.take(i + 1).drop_last() =~= all.take(i as int));
                assert(all.take(i + 1).last() == T::to_text(self@[i as int].model()));
            }
            if i > 0 {
                text.append(",");
                proof {
                    reveal_strlit(",");
                    assert(","@ =~= seq![',']);
                }
            }
            let piece = self[i].write_text();
            text.append(piece.as_str());
            proof {
                if i == 0 {
                    assert(Seq::<char>::empty() + piece@ =~= piece@);
                }
            }
            i += 1;
        }
        proof {
            let all = texts::<T>(models(self@));
            assert(all.take(self.len() as int) =~= all);
        }
        text
    }

    fn shown(text: String) -> (data: String) {
        text
    }

    fn read_text(s: &str) -> (r: Result<Self, String>) {
        if s.is_empty() {
            let values: Vec<T> = Vec::new();
            assert(models(values@) =~= Seq::empty());
            return Ok(values);
        }
        let pieces = split_commas(s);
        let ghost all = pieces.deep_view();
        let mut values: Vec<T> = Vec::new();
        let mut i: usize = 0;
        proof {
            assert(all.take(0) =~= Seq::empty());
            assert(models(values@) =~= Seq::empty());
        }
        while i < pieces.len()
            invariant
                i <= pieces.len(),
                all == pieces.deep_view(),
                all.len() == pieces.len(),
                all == comma_pieces(s@),
                s@.len() > 0,
                read_pieces::<T>(all.take(i as int)) == Some(models(values@)),
            decreases pieces.len() - i,
        {
            proof {
                assert(all[i as int] == pieces@[i as int]@);
                assert(all.take(i + 1).drop_last() =~= all.take(i as int));
                assert(all.take(i + 1).last() == all[i as int]);
            }
            let ghost before = values@;
            match T::read_text(pieces[i].as_str()) {
                Ok(v) => {
                    values.push(v);
                    proof {
                        assert(models(values@) =~= models(before).push(v.model()));
                    }
                },
                Err(e) => {
                    proof {
                        lemma_unread_stays::<T>(all, i + 1);
                    }
                    return Err(e);
                },
            }
            i += 1;
        }
        proof {
            assert(all.take(pieces.len() as int) =~= all);
        }
        Ok(values)
    }
}

} // verus!

//! The mapping between raw rows and typed objects.

use crate::row::FieldValues;
use vstd::prelude::*;
use vstd::string::StringExecFns;

verus! {

/// Why a row could not be read as a typed object, or an object not be written
/// as a row.
#[derive(Debug)]
pub enum FieldValueError {
    /// A field is not present.
    Missing { field: &'static str },
    /// A field is present but its value could not be parsed.
    Invalid { field: &'static str, data: String, error: String },
}

impl FieldValueError {
    /// The error as a line of text.
    pub fn to_string(&self) -> (text: String)
        ensures
            text@ == match *self {
                FieldValueError::Missing { field } => "Missing field: "@ + field@,
                FieldValueError::Invalid { field, data, error } => "Invalid field: "@ + field@
                    + " = '"@ + data@ + "' ("@ + error@ + ")"@,
            },
    {
        match self {
            FieldValueError::Missing { field } => {
                let mut text = "Missing field: ".to_owned();
                text.append(field);
                text
            },
            FieldValueError::Invalid { field, data, error } => {
                let mut text = "Invalid field: ".to_owned();
                text.append(field);
                text.append(" = '");
                text.append(data.as_str());
                text.append("' (");
                text.append(error.as_str());
                text.append(")");
                text
            },
        }
    }
}

/// What a [`FieldValueError`] stands for.
pub enum FieldValueErrorView {
    Missing { field: Seq<char> },
    Invalid { field: Seq<char>, data: Seq<char>, error: Seq<char> },
}

impl View for FieldValueError {
    type V = FieldValueErrorView;

    open spec fn view(&self) -> FieldValueErrorView {
        match *self {
            FieldValueError::Missing { field } => FieldValueErrorView::Missing { field: field@ },
            FieldValueError::Invalid { field, data, error } => FieldValueErrorView::Invalid {
                field: field@,
                data: data@,
                error: error@,
            },
        }
    }
}

/// A type whose values are stored as table rows.
///
/// The two spec functions say, over views, which row a value is written as
/// and which value a row reads as, or with which error either fails.
/// `lemma_round_trip` is the law that ties them together: reading what was
/// written gives the value back.
pub trait ToFromFieldValues: View + Sized {
    /// The row that a value is written as, or the error for a value that
    /// has no row.
    spec fn to_row_spec(v: Self::V) -> Result<Map<Seq<char>, Seq<u8>>, FieldValueErrorView>;

    /// The value that a row reads as, or the error for a row that is no
    /// such value.
    spec fn from_row_spec(row: Map<Seq<char>, Seq<u8>>) -> Result<Self::V, FieldValueErrorView>;

    /// Reading the row that a value was written as gives that value.
    proof fn lemma_round_trip(v: Self::V)
        requires
            Self::to_row_spec(v) is Ok,
        ensures
            Self::from_row_spec(Self::to_row_spec(v)->Ok_0) == Ok::<Self::V, FieldValueErrorView>(v),
    ;

    /// Writes the value as a row.
    fn to_field_values(&self) -> (r: Result<FieldValues, FieldValueError>)
        ensures
            match r {
                Ok(row) => Self::to_row_spec(self@) == Ok::<
                    Map<Seq<char>, Seq<u8>>,
                    FieldValueErrorView,
                >(row@),
                Err(e) => Self::to_row_spec(self@) == Err::<
                    Map<Seq<char>, Seq<u8>>,
                    FieldValueErrorView,
                >(e@),
            },
    ;

    /// Reads a row as a value.
    fn from_field_values(fvs: &FieldValues) -> (r: Result<Self, FieldValueError>)
        ensures
            match r {
                Ok(t) => Self::from_row_spec(fvs@) == Ok::<Self::V, FieldValueErrorView>(t@),
                Err(e) => Self::from_row_spec(fvs@) == Err::<Self::V, FieldValueErrorView>(e@),
            },
    ;
}

/// Whether `row` reads as the value `v`.
pub open spec fn reads_as<T: ToFromFieldValues>(row: Map<Seq<char>, Seq<u8>>, v: T::V) -> bool {
    T::from_row_spec(row) == Ok::<T::V, FieldValueErrorView>(v)
}

/// Whether reading `row` fails with the error `e`.
pub open spec fn read_fails<T: ToFromFieldValues>(
    row: Map<Seq<char>, Seq<u8>>,
    e: FieldValueErrorView,
) -> bool {
    T::from_row_spec(row) == Err::<T::V, FieldValueErrorView>(e)
}

/// Whether the value `v` is written as `row`.
pub open spec fn written_as<T: ToFromFieldValues>(v: T::V, row: Map<Seq<char>, Seq<u8>>) -> bool {
    T::to_row_spec(v) == Ok::<Map<Seq<char>, Seq<u8>>, FieldValueErrorView>(row)
}

/// Whether writing the value `v` fails with the error `e`.
pub open spec fn write_fails<T: ToFromFieldValues>(v: T::V, e: FieldValueErrorView) -> bool {
    T::to_row_spec(v) == Err::<Map<Seq<char>, Seq<u8>>, FieldValueErrorView>(e)
}

/// A row is its own typed form: it is written as itself and read as itself.
impl ToFromFieldValues for FieldValues {
    open spec fn to_row_spec(v: Map<Seq<char>, Seq<u8>>) -> Result<
        Map<Seq<char>, Seq<u8>>,
        FieldValueErrorView,
    > {
        Ok(v)
    }

    open spec fn from_row_spec(row: Map<Seq<char>, Seq<u8>>) -> Result<
        Map<Seq<char>, Seq<u8>>,
        FieldValueErrorView,
    > {
        Ok(row)
    }

    proof fn lemma_round_trip(v: Map<Seq<char>, Seq<u8>>) {
    }

    fn to_field_values(&self) -> (r: Result<FieldValues, FieldValueError>) {
        Ok(self.clone())
    }

    fn from_field_values(fvs: &FieldValues) -> (r: Result<Self, FieldValueError>) {
        Ok(fvs.clone())
    }
}

} // verus!

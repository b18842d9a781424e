//! Table schemata of the high-availability manager.

use crate::codec::{FieldValueError, FieldValueErrorView, ToFromFieldValues};
use crate::row::FieldValues;
use vstd::prelude::*;

/// External facing configuration tables.
pub mod config_tables;
/// External facing state tables.
pub mod external_tables;
/// Tables used by the high-availability manager internally.
pub mod internal_tables;
/// State tables whose rows are written and read field by field.
pub mod state_tables;
/// How single values are written to and read from the fields of a row.
pub mod support;

verus! {

/// What updating a value from the fields `fvs` gives: the value is written
/// as a row, the fields of `fvs` are put into the row, and the row is read
/// back. Where the value has no row, or the row with the new fields does not
/// read as a value, the update fails with the error of that step.
pub open spec fn updated_spec<T: ToFromFieldValues>(
    fvs: Map<Seq<char>, Seq<u8>>,
    value: T::V,
) -> Result<T::V, FieldValueErrorView> {
    match T::to_row_spec(value) {
        Ok(row) => T::from_row_spec(row.union_prefer_right(fvs)),
        Err(e) => Err(e),
    }
}

/// Updates `value` from the fields `fvs`: the fields that `fvs` has replace
/// those of `value`, the others stay. On failure `value` stays as it was.
pub fn update_from_field_values<T: ToFromFieldValues>(fvs: FieldValues, value: &mut T) -> (r: Result<
    (),
    FieldValueError,
>)
    ensures
        match r {
            Ok(()) => updated_spec::<T>(fvs@, old(value)@) == Ok::<T::V, FieldValueErrorView>(
                final(value)@,
            ),
            Err(e) => updated_spec::<T>(fvs@, old(value)@) == Err::<T::V, FieldValueErrorView>(e@)
                && *final(value) == *old(value),
        },
{
    let mut existing_fvs = value.to_field_values()?;
    existing_fvs.extend(&fvs);
    *value = T::from_field_values(&existing_fvs)?;
    Ok(())
}

} // verus!

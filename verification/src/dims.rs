//! Checked conversion of foreign `c_int` dimensions to the host's unsigned
//! size type.
//!
//! The foreign layer reports widths, heights and strides as C integers; a
//! hostile or corrupt input could make it report one that no valid geometry
//! has. Every such value is bounds-checked here before any further logic
//! runs, and a value that does not fit becomes a `Range` failure rather than
//! being truncated or wrapped.

use vstd::prelude::*;

use crate::error::HeifError;

verus! {

/// Relies on cast's `Error`: the enumeration cast returns when a checked
/// numeric conversion fails.
#[verifier::external_type_specification]
#[verifier::external_body]
pub struct ExCastError(cast::Error);

/// Relies on `cast::usize` for `i32`: the conversion yields the same value
/// exactly when the input is not negative, and fails otherwise.
#[verifier::external_body]
fn usize_from_c_int(v: i32) -> (r: Result<usize, cast::Error>)
    ensures
        r is Ok <==> v >= 0,
        r matches Ok(u) ==> u == v as usize,
{
    cast::usize(v)
}

/// Checks one foreign dimension against the host's unsigned size type.
pub fn dim_to_usize(v: i32) -> (r: Result<usize, HeifError>)
    ensures
        v >= 0 ==> r == Ok::<usize, HeifError>(v as usize),
        v < 0 ==> r == Err::<usize, HeifError>(HeifError::Range),
{
    match usize_from_c_int(v) {
        Ok(u) => Ok(u),
        Err(_) => Err(HeifError::Range),
    }
}

} // verus!

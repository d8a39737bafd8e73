//! The decoded tabular payload, and the outside types it travels in.
//!
//! A table is a `polars::prelude::DataFrame`; the library carries such
//! values through its cache and its download pipeline without looking
//! inside them, so the type is declared opaque here.

use vstd::prelude::*;

verus! {

#[verifier::external_type_specification]
#[verifier::external_body]
pub struct ExDataFrame(polars::prelude::DataFrame);

#[verifier::external_type_specification]
#[verifier::external_body]
pub struct ExColumn(polars::prelude::Column);

#[verifier::external_type_specification]
#[verifier::external_body]
pub struct ExPolarsError(polars::prelude::PolarsError);

/// Relies on polars `DataFrame::clone`: the clone shares the same columns
/// as the original, so the two are the same table.
#[verifier::external_body]
pub fn clone_df(df: &polars::prelude::DataFrame) -> (r: polars::prelude::DataFrame)
    ensures
        r == *df,
{
    df.clone()
}

} // verus!

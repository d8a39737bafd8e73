//! The failure kinds that the fetch-and-cache subsystem surfaces.
//!
//! Every fetch- or resolution-level failure is handed to the caller as one
//! of these values; none is retried or downgraded. Validation failures are
//! detected before any network activity.

use vstd::prelude::*;

verus! {

#[verifier::external_type_specification]
#[verifier::external_body]
pub struct ExReqwestError(reqwest::Error);

#[derive(Debug)]
pub enum NflReadError {
    /// Transport failure, timeout, or a non-success HTTP status.
    Http(reqwest::Error),
    /// Malformed or unreadable Parquet/CSV payload, or another table-level fault.
    Polars(polars::prelude::PolarsError),
    /// A requested season year below the dataset's earliest available season,
    /// or an earliest available season after the current one.
    InvalidSeason { season: i32, first_season: i32 },
    /// A caller-supplied enum-like argument outside the allowed set; holds the
    /// offending value.
    InvalidParameter(String),
    /// The requested season range resolves to zero eligible files.
    NoData,
}

} // verus!

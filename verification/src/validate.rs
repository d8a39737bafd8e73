//! Validation of caller-supplied enum-like loader arguments.
//!
//! Each check accepts exactly the allowed set for its argument and otherwise
//! fails with an invalid-parameter error holding the offending value; loaders
//! run these before any network activity.

use vstd::prelude::*;
use vstd::string::StringExecFns;
use crate::downloader::DataFormat;
use crate::error::NflReadError;
use crate::text::str_eq;

verus! {

broadcast use vstd::string::group_string_axioms;

/// The rejection every validator uses: an invalid-parameter error carrying
/// the offending value.
pub open spec fn rejected_with(r: Result<(), NflReadError>, value: Seq<char>) -> bool {
    r matches Err(e) && e matches NflReadError::InvalidParameter(s) && s@ == value
}

/// Next Gen Stats: `stat_type` must be `passing`, `receiving` or `rushing`.
pub fn validate_nextgen_stat_type(stat_type: &str) -> (r: Result<(), NflReadError>)
    ensures
        (r is Ok) <==> (stat_type@ == "passing"@ || stat_type@ == "receiving"@ || stat_type@
            == "rushing"@),
        !(r is Ok) ==> rejected_with(r, stat_type@),
{
    if str_eq(stat_type, "passing") || str_eq(stat_type, "receiving") || str_eq(
        stat_type,
        "rushing",
    ) {
        Ok(())
    } else {
        Err(NflReadError::InvalidParameter(String::from_str(stat_type)))
    }
}

/// Fantasy opportunity data: `stat_type` must be `weekly`, `pbp_pass` or
/// `pbp_rush`.
pub fn validate_ff_stat_type(stat_type: &str) -> (r: Result<(), NflReadError>)
    ensures
        (r is Ok) <==> (stat_type@ == "weekly"@ || stat_type@ == "pbp_pass"@ || stat_type@
            == "pbp_rush"@),
        !(r is Ok) ==> rejected_with(r, stat_type@),
{
    if str_eq(stat_type, "weekly") || str_eq(stat_type, "pbp_pass") || str_eq(
        stat_type,
        "pbp_rush",
    ) {
        Ok(())
    } else {
        Err(NflReadError::InvalidParameter(String::from_str(stat_type)))
    }
}

/// Fantasy opportunity data: `model_version` must be `latest` or `v1.0.0`.
pub fn validate_model_version(version: &str) -> (r: Result<(), NflReadError>)
    ensures
        (r is Ok) <==> (version@ == "latest"@ || version@ == "v1.0.0"@),
        !(r is Ok) ==> rejected_with(r, version@),
{
    if str_eq(version, "latest") || str_eq(version, "v1.0.0") {
        Ok(())
    } else {
        Err(NflReadError::InvalidParameter(String::from_str(version)))
    }
}

/// Pro Football Reference advanced stats: `stat_type` must be `pass`, `rush`,
/// `rec` or `def`.
pub fn validate_pfr_stat_type(stat_type: &str) -> (r: Result<(), NflReadError>)
    ensures
        (r is Ok) <==> (stat_type@ == "pass"@ || stat_type@ == "rush"@ || stat_type@ == "rec"@
            || stat_type@ == "def"@),
        !(r is Ok) ==> rejected_with(r, stat_type@),
{
    if str_eq(stat_type, "pass") || str_eq(stat_type, "rush") || str_eq(stat_type, "rec")
        || str_eq(stat_type, "def") {
        Ok(())
    } else {
        Err(NflReadError::InvalidParameter(String::from_str(stat_type)))
    }
}

/// Pro Football Reference advanced stats: `summary_level` must be `week` or
/// `season`.
pub fn validate_pfr_summary_level(level: &str) -> (r: Result<(), NflReadError>)
    ensures
        (r is Ok) <==> (level@ == "week"@ || level@ == "season"@),
        !(r is Ok) ==> rejected_with(r, level@),
{
    if str_eq(level, "week") || str_eq(level, "season") {
        Ok(())
    } else {
        Err(NflReadError::InvalidParameter(String::from_str(level)))
    }
}

/// Player and team statistics: `summary_level` must be `week`, `reg`, `post`
/// or `reg+post`.
pub fn validate_stats_summary_level(level: &str) -> (r: Result<(), NflReadError>)
    ensures
        (r is Ok) <==> (level@ == "week"@ || level@ == "reg"@ || level@ == "post"@ || level@
            == "reg+post"@),
        !(r is Ok) ==> rejected_with(r, level@),
{
    if str_eq(level, "week") || str_eq(level, "reg") || str_eq(level, "post") || str_eq(
        level,
        "reg+post",
    ) {
        Ok(())
    } else {
        Err(NflReadError::InvalidParameter(String::from_str(level)))
    }
}

/// The file a fantasy-rankings request maps to: `draft` and `week` name CSV
/// snapshots, `all` the full Parquet history; anything else is rejected.
pub fn ff_rankings_file(ranking_type: &str) -> (r: Result<
    (&'static str, DataFormat),
    NflReadError,
>)
    ensures
        ranking_type@ == "draft"@ ==> (r matches Ok(f) && f.0@ == "db_fpecr_latest.csv"@ && f.1
            == DataFormat::Csv),
        ranking_type@ == "week"@ ==> (r matches Ok(f) && f.0@ == "fp_latest_weekly.csv"@ && f.1
            == DataFormat::Csv),
        ranking_type@ == "all"@ ==> (r matches Ok(f) && f.0@ == "db_fpecr.parquet"@ && f.1
            == DataFormat::Parquet),
        !(ranking_type@ == "draft"@ || ranking_type@ == "week"@ || ranking_type@ == "all"@) ==> (
        r matches Err(e) && e matches NflReadError::InvalidParameter(s) && s@ == ranking_type@),
{
    if str_eq(ranking_type, "draft") {
        proof {
            reveal_strlit("draft");
            reveal_strlit("week");
            reveal_strlit("all");
            assert("draft"@.len() == 5);
            assert("week"@.len() == 4);
            assert("all"@.len() == 3);
            assert(ranking_type@ != "week"@);
            assert(ranking_type@ != "all"@);
        }
        Ok(("db_fpecr_latest.csv", DataFormat::Csv))
    } else if str_eq(ranking_type, "week") {
        proof {
            reveal_strlit("week");
            reveal_strlit("all");
            assert("week"@.len() == 4);
            assert("all"@.len() == 3);
            assert(ranking_type@ != "all"@);
        }
        Ok(("fp_latest_weekly.csv", DataFormat::Csv))
    } else if str_eq(ranking_type, "all") {
        Ok(("db_fpecr.parquet", DataFormat::Parquet))
    } else {
        Err(NflReadError::InvalidParameter(String::from_str(ranking_type)))
    }
}

/// Participation data exists only for completed seasons: while the current
/// week is not the final one (22), the newest available season is the one
/// before the current season.
pub fn participation_max_season(current_season: i32, current_week: i32) -> (max_season: i32)
    requires
        current_season > i32::MIN,
    ensures
        max_season == (if current_week == 22 {
            current_season as int
        } else {
            current_season - 1
        }),
{
    if current_week == 22 {
        current_season
    } else {
        current_season - 1
    }
}

} // verus!

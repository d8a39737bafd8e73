//! Season resolution: expanding a caller-supplied seasons specification into
//! an ordered, validated list of season years.
//!
//! Validation checks every requested year against the dataset's earliest
//! available season; no upper bound is checked, and duplicates and order are
//! preserved.

use vstd::prelude::*;
use crate::dates::get_current_season;
use crate::error::NflReadError;

verus! {

/// The `seasons` parameter that most loaders accept.
#[derive(Debug, Clone)]
pub enum Seasons {
    /// The current season only.
    Current,
    /// Every season from the first available one through the current one.
    All,
    /// One season year.
    Single(i32),
    /// An explicit list of season years, kept in order, duplicates included.
    Multiple(Vec<i32>),
}

/// Every entry of `s` is at least `bound`.
pub open spec fn all_at_least(s: Seq<i32>, bound: i32) -> bool {
    forall|i: int| 0 <= i < s.len() ==> s[i] >= bound
}

/// What resolving an explicit list returns: the list itself when every year
/// is at least `first_season`, else an invalid-season error naming the first
/// offending year and the bound.
pub open spec fn multiple_post(
    v: Seq<i32>,
    first_season: i32,
    r: Result<Vec<i32>, NflReadError>,
) -> bool {
    &&& ((r is Ok) <==> all_at_least(v, first_season))
    &&& (r matches Ok(years) ==> years@ == v)
    &&& (r matches Err(e) ==> exists|i: int|
        #![auto]
        0 <= i < v.len() && v[i] < first_season && all_at_least(v.take(i), first_season) && e == (
        NflReadError::InvalidSeason { season: v[i], first_season }))
}

/// What resolving a seasons specification returns, given the current season.
pub open spec fn resolve_post(
    s: Seasons,
    first_season: i32,
    current: i32,
    r: Result<Vec<i32>, NflReadError>,
) -> bool {
    match s {
        Seasons::Current => r matches Ok(years) && years@ == seq![current],
        Seasons::All => {
            &&& ((r is Ok) <==> first_season <= current)
            &&& (r matches Ok(years) ==> years@.len() == current - first_season + 1 && (forall|
                i: int,
            |
                #![auto]
                0 <= i < years@.len() ==> years@[i] == first_season + i))
            &&& (r matches Err(e) ==> e == (NflReadError::InvalidSeason {
                season: current,
                first_season,
            }))
        },
        Seasons::Single(y) => {
            if y < first_season {
                r matches Err(e) && e == (NflReadError::InvalidSeason { season: y, first_season })
            } else {
                r matches Ok(years) && years@ == seq![y]
            }
        },
        Seasons::Multiple(v) => multiple_post(v@, first_season, r),
    }
}

impl Seasons {
    /// Resolve against an explicitly supplied current season.
    ///
    /// `first_season` is the earliest season for which data is available.
    #[verifier::loop_isolation(false)]
    pub fn resolve_with_current(&self, first_season: i32, current: i32) -> (r: Result<
        Vec<i32>,
        NflReadError,
    >)
        requires
            current < i32::MAX,
        ensures
            resolve_post(*self, first_season, current, r),
    {
        match self {
            Seasons::Current => {
                let mut years: Vec<i32> = Vec::new();
                years.push(current);
                proof {
                    assert(years@ =~= seq![current]);
                }
                Ok(years)
            },
            Seasons::All => {
                if first_season > current {
                    return Err(NflReadError::InvalidSeason { season: current, first_season });
                }
                let mut years: Vec<i32> = Vec::new();
                let mut y: i32 = first_season;
                while y <= current
                    invariant
                        first_season <= y,
                        y <= current + 1,
                        current < i32::MAX,
                        years@.len() == y - first_season,
                        forall|i: int| #![auto] 0 <= i < years@.len() ==> years@[i] == first_season
                            + i,
                    decreases current + 1 - y,
                {
                    years.push(y);
                    y = y + 1;
                }
                Ok(years)
            },
            Seasons::Single(y) => {
                if *y < first_season {
                    Err(NflReadError::InvalidSeason { season: *y, first_season })
                } else {
                    let mut years: Vec<i32> = Vec::new();
                    years.push(*y);
                    proof {
                        assert(years@ =~= seq![*y]);
                    }
                    Ok(years)
                }
            },
            Seasons::Multiple(v) => {
                let n = v.len();
                let mut i: usize = 0;
                while i < n
                    invariant
                        i <= n,
                        n == v@.len(),
                        all_at_least(v@.take(i as int), first_season),
                    decreases n - i,
                {
                    let year = v[i];
                    if year < first_season {
                        let err_val = NflReadError::InvalidSeason { season: year, first_season };
                        proof {
                            let gi = i as int;
                            assert(!all_at_least(v@, first_season));
                            assert(0 <= gi < v@.len() && v@[gi] < first_season && all_at_least(
                                v@.take(gi),
                                first_season,
                            ) && err_val == (NflReadError::InvalidSeason {
                                season: v@[gi],
                                first_season,
                            }));
                            assert(exists|k: int|
                                #![auto]
                                0 <= k < v@.len() && v@[k] < first_season && all_at_least(
                                    v@.take(k),
                                    first_season,
                                ) && err_val == (NflReadError::InvalidSeason {
                                    season: v@[k],
                                    first_season,
                                }));
                        }
                        return Err(err_val);
                    }
                    proof {
                        assert(v@.take(i + 1) =~= v@.take(i as int).push(v@[i as int]));
                    }
                    i += 1;
                }
                proof {
                    assert(v@.take(n as int) =~= v@);
                }
                let mut years: Vec<i32> = Vec::new();
                let mut j: usize = 0;
                while j < n
                    invariant
                        j <= n,
                        n == v@.len(),
                        years@ =~= v@.take(j as int),
                    decreases n - j,
                {
                    years.push(v[j]);
                    proof {
                        assert(v@.take(j + 1) =~= v@.take(j as int).push(v@[j as int]));
                    }
                    j += 1;
                }
                proof {
                    assert(years@ =~= v@);
                }
                Ok(years)
            },
        }
    }

    /// Resolve to a concrete list of season years, reading the current season
    /// from the system clock. `roster` selects the 15 March cutoff instead of
    /// the Thursday-after-Labor-Day cutoff.
    pub fn resolve(&self, first_season: i32, roster: bool) -> (r: Result<Vec<i32>, NflReadError>)
        ensures
            exists|current: i32|
                #![auto]
                1599 <= current <= 9999 && resolve_post(*self, first_season, current, r),
    {
        let current = get_current_season(roster);
        let r = self.resolve_with_current(first_season, current);
        proof {
            assert(1599 <= current <= 9999 && resolve_post(*self, first_season, current, r));
        }
        r
    }
}

/// Resolve an optional season list with the schedule cutoff: `None` means
/// the current season; an explicit list is validated against `first_season`.
pub fn resolve_seasons(seasons: Option<Vec<i32>>, first_season: i32) -> (r: Result<
    Vec<i32>,
    NflReadError,
>)
    ensures
        match seasons {
            Option::None => r matches Ok(years) && years@.len() == 1 && 1599 <= years@[0] <= 9999,
            Option::Some(v) => multiple_post(v@, first_season, r),
        },
{
    let s = match seasons {
        Option::None => Seasons::Current,
        Option::Some(v) => Seasons::Multiple(v),
    };
    s.resolve(first_season, false)
}

/// Resolve an optional season list with the roster cutoff (15 March).
pub fn resolve_seasons_roster(seasons: Option<Vec<i32>>, first_season: i32) -> (r: Result<
    Vec<i32>,
    NflReadError,
>)
    ensures
        match seasons {
            Option::None => r matches Ok(years) && years@.len() == 1 && 1599 <= years@[0] <= 9999,
            Option::Some(v) => multiple_post(v@, first_season, r),
        },
{
    let s = match seasons {
        Option::None => Seasons::Current,
        Option::Some(v) => Seasons::Multiple(v),
    };
    s.resolve(first_season, true)
}

} // verus!

//! Schedule-based current-week resolution.
//!
//! The schedule table carries, per game, a `week` number and a nullable
//! `result`; a null result means the game has not been played. The current
//! week is the smallest week with an unplayed game, or, once every game has a
//! result, the largest week listed.

use vstd::prelude::*;

verus! {

/// One schedule row as the week resolver reads it: the week number (absent
/// where the column is null) and whether the result is missing (the game has
/// not been played yet).
#[derive(Debug, Clone, Copy)]
pub struct GameRow {
    pub week: Option<i32>,
    pub result_missing: bool,
}

/// Some game is unplayed.
pub open spec fn has_unplayed(s: Seq<GameRow>) -> bool {
    exists|i: int| 0 <= i < s.len() && s[i].result_missing
}

/// `w` is the week of some unplayed game.
pub open spec fn unplayed_week(s: Seq<GameRow>, w: i32) -> bool {
    exists|i: int| 0 <= i < s.len() && s[i].result_missing && s[i].week == Some(w)
}

/// `w` is the week of some game, played or not.
pub open spec fn listed_week(s: Seq<GameRow>, w: i32) -> bool {
    exists|i: int| 0 <= i < s.len() && s[i].week == Some(w)
}

/// The current week named by a schedule: the minimum week among unplayed
/// games; when every game is played, the maximum week present; 1 or 22 when
/// the respective set of weeks is empty.
#[verifier::loop_isolation(false)]
pub fn get_current_week_from_schedule(rows: &Vec<GameRow>) -> (week: i32)
    ensures
        has_unplayed(rows@) && (exists|w: i32| unplayed_week(rows@, w)) ==> unplayed_week(
            rows@,
            week,
        ) && (forall|w: i32| unplayed_week(rows@, w) ==> week <= w),
        has_unplayed(rows@) && !(exists|w: i32| unplayed_week(rows@, w)) ==> week == 1,
        !has_unplayed(rows@) && (exists|w: i32| listed_week(rows@, w)) ==> listed_week(
            rows@,
            week,
        ) && (forall|w: i32| listed_week(rows@, w) ==> w <= week),
        !has_unplayed(rows@) && !(exists|w: i32| listed_week(rows@, w)) ==> week == 22,
{
    let n = rows.len();
    let mut any_unplayed = false;
    let mut min_unplayed: Option<i32> = None;
    let mut max_week: Option<i32> = None;
    let mut i: usize = 0;
    while i < n
        invariant
            i <= n,
            any_unplayed == exists|j: int| 0 <= j < i && rows@[j].result_missing,
            match min_unplayed {
                Some(m) => (exists|j: int|
                    0 <= j < i && rows@[j].result_missing && rows@[j].week == Some(m)) && (forall|
                    j: int,
                    wj: i32,
                |
                    0 <= j < i && rows@[j].result_missing && rows@[j].week == Some(wj) ==> m <= wj),
                None => forall|j: int, wj: i32|
                    !(0 <= j < i && rows@[j].result_missing && rows@[j].week == Some(wj)),
            },
            match max_week {
                Some(m) => (exists|j: int| 0 <= j < i && rows@[j].week == Some(m)) && (forall|
                    j: int,
                    wj: i32,
                |
                    0 <= j < i && rows@[j].week == Some(wj) ==> wj <= m),
                None => forall|j: int, wj: i32| !(0 <= j < i && rows@[j].week == Some(wj)),
            },
        decreases n - i,
    {
        let row = rows[i];
        if row.result_missing {
            any_unplayed = true;
        }
        if let Some(w) = row.week {
            max_week = match max_week {
                Some(m) => if w > m {
                    Some(w)
                } else {
                    Some(m)
                },
                None => Some(w),
            };
            if row.result_missing {
                min_unplayed = match min_unplayed {
                    Some(m) => if w < m {
                        Some(w)
                    } else {
                        Some(m)
                    },
                    None => Some(w),
                };
            }
        }
        i += 1;
    }
    proof {
        assert(any_unplayed == has_unplayed(rows@));
    }
    if any_unplayed {
        match min_unplayed {
            Some(m) => {
                proof {
                    assert(unplayed_week(rows@, m));
                    assert forall|w: i32| unplayed_week(rows@, w) implies m <= w by {
                        let j = choose|j: int|
                            0 <= j < rows@.len() && rows@[j].result_missing && rows@[j].week
                                == Some(w);
                    }
                }
                m
            },
            None => {
                proof {
                    assert forall|w: i32| !unplayed_week(rows@, w) by {}
                }
                1
            },
        }
    } else {
        match max_week {
            Some(m) => {
                proof {
                    assert(listed_week(rows@, m));
                    assert forall|w: i32| listed_week(rows@, w) implies w <= m by {
                        let j = choose|j: int| 0 <= j < rows@.len() && rows@[j].week == Some(w);
                    }
                }
                m
            },
            None => {
                proof {
                    assert forall|w: i32| !listed_week(rows@, w) by {}
                }
                22
            },
        }
    }
}

} // verus!

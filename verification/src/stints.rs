//! Stint counts and the checkpoint table.
//!
//! A session is cut into evenly sized stints, either by distance (so many
//! meters per stint) or by time (so many seconds per stint). The checkpoint
//! table lists, after each stint, the cumulative distance and time a rower
//! should have reached.

use vstd::prelude::*;

use crate::{PaceError, SessionInput};

verus! {

/// How a session is divided into stints.
#[derive(Clone, Copy, Debug, PartialEq, Eq, Structural)]
pub enum Granularity {
    /// A stint covers this many meters.
    ByDistance(u32),
    /// A stint lasts this many seconds.
    ByTime(u32),
}

impl Granularity {
    /// The chosen step is positive.
    pub open spec fn wf(self) -> bool {
        match self {
            Granularity::ByDistance(d) => d > 0,
            Granularity::ByTime(t) => t > 0,
        }
    }
}

/// Chooses the granularity from the two optional command flags: exactly one
/// must be given, and its value must be positive.
pub fn select_granularity(by_dist: Option<u32>, by_time: Option<u32>) -> (r: Result<
    Granularity,
    PaceError,
>)
    ensures
        r is Ok <==> ((by_dist is Some && by_time is None && by_dist->0 > 0) || (by_dist is None
            && by_time is Some && by_time->0 > 0)),
        by_dist is Some && by_time is None && by_dist->0 > 0 ==> r == Ok::<
            Granularity,
            PaceError,
        >(Granularity::ByDistance(by_dist->0)),
        by_dist is None && by_time is Some && by_time->0 > 0 ==> r == Ok::<
            Granularity,
            PaceError,
        >(Granularity::ByTime(by_time->0)),
        r is Ok ==> r->Ok_0.wf(),
        r is Err ==> r->Err_0 == PaceError::InvalidInput,
{
    match (by_dist, by_time) {
        (Some(d), None) => if d > 0 {
            Ok(Granularity::ByDistance(d))
        } else {
            Err(PaceError::InvalidInput)
        },
        (None, Some(t)) => if t > 0 {
            Ok(Granularity::ByTime(t))
        } else {
            Err(PaceError::InvalidInput)
        },
        _ => Err(PaceError::InvalidInput),
    }
}

/// Number of whole stints the granularity cuts the session into: the session
/// distance divided by the distance step, or the session seconds divided by
/// the time step, truncating. Zero when the step exceeds the whole session.
pub open spec fn spec_stint_count(input: SessionInput, granularity: Granularity) -> int {
    match granularity {
        Granularity::ByDistance(d) => input.distance_meters as int / d as int,
        Granularity::ByTime(t) => (input.total_time_minutes as int * 60) / t as int,
    }
}

/// The number of whole stints in the session. Callers present a count of
/// zero as "pace only, no checkpoint table" rather than as an error.
pub fn resolve_stint_count(input: SessionInput, granularity: Granularity) -> (r: u32)
    requires
        input.wf(),
        granularity.wf(),
    ensures
        r == spec_stint_count(input, granularity),
{
    match granularity {
        Granularity::ByDistance(d) => input.distance_meters / d,
        Granularity::ByTime(t) => input.total_time_minutes * 60 / t,
    }
}

/// One row of the checkpoint table: after `index` stints the rower should
/// have covered `cumulative_distance_meters` meters in
/// `cumulative_time_seconds` seconds.
#[derive(Clone, Copy, Debug, PartialEq, Eq, Structural)]
pub struct Checkpoint {
    pub index: u32,
    pub cumulative_distance_meters: u32,
    pub cumulative_time_seconds: u32,
}

/// Meters per stint: the session distance divided evenly, truncating.
pub open spec fn spec_split_dist(dist: int, stints: int) -> int {
    if stints == 0 {
        0
    } else {
        dist / stints
    }
}

/// Seconds per stint: the session seconds divided evenly, truncating.
pub open spec fn spec_split_time(time_minutes: int, stints: int) -> int {
    if stints == 0 {
        0
    } else {
        (time_minutes * 60) / stints
    }
}

/// The checkpoint table for a session of `dist` meters and `time_minutes`
/// minutes cut into `stints` stints: `stints` rows, row `k` (zero-based)
/// holding index `k + 1` and `k + 1` times the per-stint distance and time.
pub open spec fn is_checkpoint_table(
    table: Seq<Checkpoint>,
    time_minutes: int,
    dist: int,
    stints: int,
) -> bool {
    &&& table.len() == stints
    &&& forall|k: int|
        0 <= k < stints ==> {
            &&& (#[trigger] table[k]).index == k + 1
            &&& table[k].cumulative_distance_meters == (k + 1) * spec_split_dist(dist, stints)
            &&& table[k].cumulative_time_seconds == (k + 1) * spec_split_time(time_minutes, stints)
        }
}

/// The checkpoint table: one row per stint, cumulative distance and time
/// stepping by the truncated per-stint shares, so the table is evenly spaced
/// and the last row stays within the session totals. An empty table when
/// `stints == 0`: the session is then presented as pace only.
pub fn calc_stints(time: u32, dist: u32, stints: u32) -> (parts: Vec<Checkpoint>)
    requires
        time * 60 <= u32::MAX,
    ensures
        is_checkpoint_table(parts@, time as int, dist as int, stints as int),
{
    let mut parts: Vec<Checkpoint> = Vec::new();
    if stints == 0 {
        return parts;
    }
    let total_secs: u32 = time * 60;
    let split_time: u32 = total_secs / stints;
    let split_dist: u32 = dist / stints;
    proof {
        lemma_stint_shares_fit(total_secs as int, stints as int);
        lemma_stint_shares_fit(dist as int, stints as int);
    }
    let mut i: u32 = 0;
    while i < stints
        invariant
            i <= stints,
            0 < stints,
            time * 60 <= u32::MAX,
            total_secs == time * 60,
            split_time == spec_split_time(time as int, stints as int),
            split_dist == spec_split_dist(dist as int, stints as int),
            stints * split_time <= total_secs,
            stints * split_dist <= dist,
            parts@.len() == i,
            forall|k: int|
                0 <= k < i ==> {
                    &&& (#[trigger] parts@[k]).index == k + 1
                    &&& parts@[k].cumulative_distance_meters == (k + 1) * split_dist
                    &&& parts@[k].cumulative_time_seconds == (k + 1) * split_time
                },
        decreases stints - i,
    {
        let idx: u32 = i + 1;
        proof {
            lemma_mul_le_mono(idx as int, stints as int, split_time as int);
            lemma_mul_le_mono(idx as int, stints as int, split_dist as int);
        }
        let t: u32 = idx * split_time;
        let d: u32 = idx * split_dist;
        parts.push(
            Checkpoint { index: idx, cumulative_distance_meters: d, cumulative_time_seconds: t },
        );
        i = idx;
    }
    parts
}

/// A checkpoint table for at least one stint has exactly `stints` rows, the
/// first row carries index 1, and the cumulative distance and time figures
/// strictly increase from row to row. Requiring `stints` not to exceed the
/// session's meters and seconds rules out the degenerate per-stint shares of
/// zero, where the truncated division would repeat a cumulative figure.
pub proof fn lemma_checkpoint_table_strictly_increasing(
    table: Seq<Checkpoint>,
    time_minutes: int,
    dist: int,
    stints: int,
)
    requires
        is_checkpoint_table(table, time_minutes, dist, stints),
        1 <= stints <= dist,
        stints <= time_minutes * 60,
    ensures
        table.len() == stints,
        table[0].index == 1,
        forall|a: int, b: int|
            #![trigger table[a], table[b]]
            0 <= a < b < stints ==> {
                &&& table[a].cumulative_distance_meters < table[b].cumulative_distance_meters
                &&& table[a].cumulative_time_seconds < table[b].cumulative_time_seconds
            },
{
    let sd = spec_split_dist(dist, stints);
    let st = spec_split_time(time_minutes, stints);
    vstd::arithmetic::div_mod::lemma_div_non_zero(dist, stints);
    vstd::arithmetic::div_mod::lemma_div_non_zero(time_minutes * 60, stints);
    assert forall|a: int, b: int|
        #![trigger table[a], table[b]]
        0 <= a < b < stints implies {
        &&& table[a].cumulative_distance_meters < table[b].cumulative_distance_meters
        &&& table[a].cumulative_time_seconds < table[b].cumulative_time_seconds
    } by {
        assert((a + 1) * sd < (b + 1) * sd) by (nonlinear_arith)
            requires
                a < b,
                sd > 0,
        ;
        assert((a + 1) * st < (b + 1) * st) by (nonlinear_arith)
            requires
                a < b,
                st > 0,
        ;
    }
}

/// A distance step larger than the whole session yields zero stints, and the
/// table for zero stints is empty: the session is presented as pace only
/// rather than refused.
pub proof fn lemma_oversized_step_empty_table(
    input: SessionInput,
    step: u32,
    table: Seq<Checkpoint>,
)
    requires
        input.wf(),
        step > input.distance_meters,
        is_checkpoint_table(
            table,
            input.total_time_minutes as int,
            input.distance_meters as int,
            spec_stint_count(input, Granularity::ByDistance(step)),
        ),
    ensures
        spec_stint_count(input, Granularity::ByDistance(step)) == 0,
        table == Seq::<Checkpoint>::empty(),
{
    vstd::arithmetic::div_mod::lemma_basic_div(input.distance_meters as int, step as int);
    assert(table =~= Seq::<Checkpoint>::empty());
}

/// The engine is pure: two checkpoint tables for the same inputs that both
/// meet `calc_stints`'s contract are the same sequence, so calling the
/// function twice with identical inputs yields identical outputs.
pub proof fn lemma_calc_stints_deterministic(
    table1: Seq<Checkpoint>,
    table2: Seq<Checkpoint>,
    time_minutes: int,
    dist: int,
    stints: int,
)
    requires
        is_checkpoint_table(table1, time_minutes, dist, stints),
        is_checkpoint_table(table2, time_minutes, dist, stints),
    ensures
        table1 == table2,
{
    assert(table1 =~= table2);
}

/// A truncated per-stint share, multiplied back by the stint count, stays
/// within the whole it was cut from.
proof fn lemma_stint_shares_fit(total: int, stints: int)
    requires
        0 <= total,
        0 < stints,
    ensures
        stints * (total / stints) <= total,
{
    assert(stints * (total / stints) <= total) by (nonlinear_arith)
        requires
            0 <= total,
            0 < stints,
    ;
}

/// Multiplication by a nonnegative factor keeps order.
proof fn lemma_mul_le_mono(a: int, b: int, m: int)
    requires
        a <= b,
        0 <= m,
    ensures
        a * m <= b * m,
{
    assert(a * m <= b * m) by (nonlinear_arith)
        requires
            a <= b,
            0 <= m,
    ;
}

} // verus!

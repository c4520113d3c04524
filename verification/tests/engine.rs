use rowpace::pace::{compute_pace, PaceResult};
use rowpace::stints::{
    calc_stints, resolve_stint_count, select_granularity, Checkpoint, Granularity,
};
use rowpace::{PaceError, SessionInput};

fn checkpoint(index: u32, dist: u32, time: u32) -> Checkpoint {
    Checkpoint {
        index,
        cumulative_distance_meters: dist,
        cumulative_time_seconds: time,
    }
}

#[test]
fn pace_2000m_in_8_minutes() {
    // 8 minutes = 480s over 2000m: 4 splits of 500m, 120s each = 2m0.0s.
    let pace = compute_pace(2000, 480, 500).unwrap();
    assert_eq!(
        pace,
        PaceResult {
            minutes: 2,
            seconds_tenths: 0
        }
    );
}

#[test]
fn pace_with_fractional_seconds() {
    // 1500m in 500s: 3 splits, 166.66..s each = 2m46.66..s, rounded 2m46.7s.
    let pace = compute_pace(1500, 500, 500).unwrap();
    assert_eq!(pace.minutes, 2);
    assert_eq!(pace.seconds_tenths, 467);
}

#[test]
fn pace_rounds_half_away_from_zero() {
    // 1000m in 1201s over 50m splits: 20 splits, 60.05s each; the 0.05s
    // rounds up to 1m0.1s.
    let pace = compute_pace(1000, 1201, 50).unwrap();
    assert_eq!(pace.minutes, 1);
    assert_eq!(pace.seconds_tenths, 1);
}

#[test]
fn pace_seconds_stay_below_a_minute() {
    // 2000m in 479s: 4 splits, 119.75s each = 1m59.8s (tenths below 600).
    let pace = compute_pace(2000, 479, 500).unwrap();
    assert_eq!(pace.minutes, 1);
    assert_eq!(pace.seconds_tenths, 598);
    assert!(pace.seconds_tenths < 600);
}

#[test]
fn pace_zero_distance_is_division_by_zero() {
    assert_eq!(compute_pace(0, 480, 500), Err(PaceError::DivisionByZero));
}

#[test]
fn pace_zero_split_size_is_division_by_zero() {
    assert_eq!(compute_pace(2000, 480, 0), Err(PaceError::DivisionByZero));
}

#[test]
fn pace_zero_time_is_invalid_input() {
    assert_eq!(compute_pace(2000, 0, 500), Err(PaceError::InvalidInput));
}

#[test]
fn pace_is_idempotent() {
    let first = compute_pace(1357, 911, 500);
    let second = compute_pace(1357, 911, 500);
    assert_eq!(first, second);
}

#[test]
fn session_input_validates() {
    let input = SessionInput::new(2000, 8).unwrap();
    assert_eq!(input.distance_meters, 2000);
    assert_eq!(input.total_time_minutes, 8);
    assert_eq!(input.total_time_seconds(), 480);
}

#[test]
fn session_input_rejects_zero_distance() {
    assert_eq!(SessionInput::new(0, 8), Err(PaceError::InvalidInput));
}

#[test]
fn session_input_rejects_zero_time() {
    assert_eq!(SessionInput::new(2000, 0), Err(PaceError::InvalidInput));
}

#[test]
fn session_input_rejects_oversized_time() {
    // 71582788 minutes is the largest time whose second count fits in u32.
    assert!(SessionInput::new(2000, 71582788).is_ok());
    assert_eq!(
        SessionInput::new(2000, 71582789),
        Err(PaceError::InvalidInput)
    );
}

#[test]
fn select_granularity_by_distance() {
    assert_eq!(
        select_granularity(Some(500), None),
        Ok(Granularity::ByDistance(500))
    );
}

#[test]
fn select_granularity_by_time() {
    assert_eq!(
        select_granularity(None, Some(240)),
        Ok(Granularity::ByTime(240))
    );
}

#[test]
fn select_granularity_rejects_both_flags() {
    assert_eq!(
        select_granularity(Some(500), Some(240)),
        Err(PaceError::InvalidInput)
    );
}

#[test]
fn select_granularity_rejects_neither_flag() {
    assert_eq!(select_granularity(None, None), Err(PaceError::InvalidInput));
}

#[test]
fn select_granularity_rejects_zero_step() {
    assert_eq!(
        select_granularity(Some(0), None),
        Err(PaceError::InvalidInput)
    );
    assert_eq!(
        select_granularity(None, Some(0)),
        Err(PaceError::InvalidInput)
    );
}

#[test]
fn stints_by_distance_scenario() {
    // 2000m in 8 minutes, 500m per stint: 4 stints of 120s each.
    let input = SessionInput::new(2000, 8).unwrap();
    let stints = resolve_stint_count(input, Granularity::ByDistance(500));
    assert_eq!(stints, 4);
    let table = calc_stints(8, 2000, stints);
    assert_eq!(
        table,
        vec![
            checkpoint(1, 500, 120),
            checkpoint(2, 1000, 240),
            checkpoint(3, 1500, 360),
            checkpoint(4, 2000, 480),
        ]
    );
}

#[test]
fn stints_by_time_scenario() {
    // 2000m in 8 minutes, 240s per stint: 480 / 240 = 2 stints of 1000m each.
    let input = SessionInput::new(2000, 8).unwrap();
    let stints = resolve_stint_count(input, Granularity::ByTime(240));
    assert_eq!(stints, 2);
    let table = calc_stints(8, 2000, stints);
    assert_eq!(
        table,
        vec![checkpoint(1, 1000, 240), checkpoint(2, 2000, 480)]
    );
}

#[test]
fn oversized_distance_step_gives_empty_table() {
    // A step larger than the session yields zero stints and an empty table,
    // not a failure: the session is presented as pace only.
    let input = SessionInput::new(2000, 8).unwrap();
    let stints = resolve_stint_count(input, Granularity::ByDistance(3000));
    assert_eq!(stints, 0);
    let table = calc_stints(8, 2000, stints);
    assert!(table.is_empty());
}

#[test]
fn oversized_time_step_gives_empty_table() {
    let input = SessionInput::new(2000, 8).unwrap();
    let stints = resolve_stint_count(input, Granularity::ByTime(481));
    assert_eq!(stints, 0);
    assert!(calc_stints(8, 2000, stints).is_empty());
}

#[test]
fn stints_truncate_uneven_sessions() {
    // 2000m and 480s split over 3 stints truncate to 666m and 160s per
    // stint; the last row falls short of the session totals.
    let table = calc_stints(8, 2000, 3);
    assert_eq!(
        table,
        vec![
            checkpoint(1, 666, 160),
            checkpoint(2, 1332, 320),
            checkpoint(3, 1998, 480),
        ]
    );
}

#[test]
fn stints_strictly_increase() {
    let table = calc_stints(90, 12345, 7);
    assert_eq!(table.len(), 7);
    assert_eq!(table[0].index, 1);
    for pair in table.windows(2) {
        assert!(pair[0].cumulative_distance_meters < pair[1].cumulative_distance_meters);
        assert!(pair[0].cumulative_time_seconds < pair[1].cumulative_time_seconds);
        assert_eq!(pair[1].index, pair[0].index + 1);
    }
}

#[test]
fn stints_are_idempotent() {
    let first = calc_stints(45, 7500, 6);
    let second = calc_stints(45, 7500, 6);
    assert_eq!(first, second);
}

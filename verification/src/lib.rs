//! Pace arithmetic for rowing training sessions.
//!
//! Given a total distance, a total time and a stint granularity, the library
//! computes the average pace per 500m split and a table of evenly spaced
//! checkpoints (split number, cumulative distance, cumulative time) that a
//! rower can follow during the session.

use vstd::prelude::*;

pub mod pace;
pub mod stints;

verus! {

/// Why a computation was refused.
#[derive(Clone, Copy, Debug, PartialEq, Eq, Structural)]
pub enum PaceError {
    /// A value breaks an input invariant: zero where a positive measure is
    /// needed, a session too large for the second count to fit in `u32`, or
    /// both granularity flags (or neither) supplied.
    InvalidInput,
    /// The pace denominator (distance or split size) is zero.
    DivisionByZero,
}

/// A validated session: total distance in meters and total time in minutes.
#[derive(Clone, Copy, Debug, PartialEq, Eq, Structural)]
pub struct SessionInput {
    pub distance_meters: u32,
    pub total_time_minutes: u32,
}

impl SessionInput {
    /// Both measures are positive, and the session's second count fits in `u32`.
    pub open spec fn wf(self) -> bool {
        &&& self.distance_meters > 0
        &&& self.total_time_minutes > 0
        &&& self.total_time_minutes * 60 <= u32::MAX
    }

    /// Builds a validated session, refusing a zero distance, a zero time, and
    /// a time so large that its second count would not fit in `u32`.
    pub fn new(distance_meters: u32, total_time_minutes: u32) -> (r: Result<SessionInput, PaceError>)
        ensures
            r is Ok <==> (distance_meters > 0 && total_time_minutes > 0
                && total_time_minutes * 60 <= u32::MAX),
            r is Ok ==> r->Ok_0 == (SessionInput { distance_meters, total_time_minutes }),
            r is Ok ==> r->Ok_0.wf(),
            r is Err ==> r->Err_0 == PaceError::InvalidInput,
    {
        if distance_meters == 0 || total_time_minutes == 0 || total_time_minutes > u32::MAX / 60 {
            Err(PaceError::InvalidInput)
        } else {
            Ok(SessionInput { distance_meters, total_time_minutes })
        }
    }

    /// The session's total time in seconds.
    pub fn total_time_seconds(&self) -> (r: u32)
        requires
            self.wf(),
        ensures
            r == self.total_time_minutes * 60,
    {
        self.total_time_minutes * 60
    }
}

} // verus!

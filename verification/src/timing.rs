//! Frame timing: the delta between frames, in nanoseconds, with an
//! optional fixed timestep.
//!
//! The clock itself is a host concern: the host measures the elapsed
//! time of each frame and records it here; everything derived from it is
//! verified.

use vstd::prelude::*;

verus! {

/// One second in nanoseconds.
pub const NANOS_PER_SECOND: u64 = 1_000_000_000;

/// One millisecond in nanoseconds.
pub const NANOS_PER_MILLISECOND: u64 = 1_000_000;

/// Frame timing state: the last recorded frame delta and the optional
/// fixed timestep that overrides it.
#[derive(Clone, Copy, PartialEq, Eq, Structural, Debug)]
pub struct DeltaTime {
    delta_nanos: u64,
    fixed_timestep_nanos: Option<u64>,
}

impl DeltaTime {
    /// The last recorded delta, for contracts.
    pub closed spec fn spec_delta_nanos(&self) -> u64 {
        self.delta_nanos
    }

    /// The fixed timestep, for contracts.
    pub closed spec fn spec_fixed_timestep_nanos(&self) -> Option<u64> {
        self.fixed_timestep_nanos
    }

    /// Variable-timestep timing, starting from a zero delta.
    pub fn new() -> (r: DeltaTime)
        ensures
            r.spec_delta_nanos() == 0,
            r.spec_fixed_timestep_nanos() is None,
    {
        DeltaTime { delta_nanos: 0, fixed_timestep_nanos: None }
    }

    /// Fixed-timestep timing at the given frame rate: the timestep is one
    /// second divided by `fps`, rounded to the nearest nanosecond.
    pub fn with_fixed_timestep(fps: u32) -> (r: DeltaTime)
        requires
            fps >= 1,
        ensures
            r.spec_delta_nanos() == (NANOS_PER_SECOND as int + fps as int / 2) / (fps as int),
            r.spec_fixed_timestep_nanos() matches Some(f) && f == (NANOS_PER_SECOND as int
                + fps as int / 2) / (fps as int),
    {
        let fixed: u64 = (NANOS_PER_SECOND + fps as u64 / 2) / fps as u64;
        DeltaTime { delta_nanos: fixed, fixed_timestep_nanos: Some(fixed) }
    }

    /// Record the measured duration of the frame that just ended and
    /// return the delta the simulation should step by: the fixed timestep
    /// when one is set, the measured delta otherwise.
    pub fn update(&mut self, elapsed_nanos: u64) -> (dt: u64)
        ensures
            final(self).spec_delta_nanos() == elapsed_nanos,
            final(self).spec_fixed_timestep_nanos() == old(self).spec_fixed_timestep_nanos(),
            dt == match old(self).spec_fixed_timestep_nanos() {
                Some(fixed) => fixed,
                None => elapsed_nanos,
            },
    {
        self.delta_nanos = elapsed_nanos;
        match self.fixed_timestep_nanos {
            Some(fixed) => fixed,
            None => elapsed_nanos,
        }
    }

    /// The last recorded delta, in whole milliseconds.
    pub fn delta_millis(&self) -> (r: u128)
        ensures
            r == self.spec_delta_nanos() as u128 / NANOS_PER_MILLISECOND as u128,
    {
        (self.delta_nanos as u128) / (NANOS_PER_MILLISECOND as u128)
    }

    /// The last recorded delta, in nanoseconds.
    pub fn delta_nanos(&self) -> (r: u64)
        ensures
            r == self.spec_delta_nanos(),
    {
        self.delta_nanos
    }
}

} // verus!

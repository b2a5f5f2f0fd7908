//! Cyclic waypoint sequencing.
//!
//! The sequencer owns an ordered, non-empty list of waypoints — (angle, hold
//! duration) pairs — and steps through them forever, wrapping to the first
//! after the last. Each step yields exactly one [`Transition`]: the duty
//! value to write to the PWM channel and the duration to hold it. The
//! control loop that owns the hardware performs the write, suspends for the
//! hold duration, and only then asks for the next step, so duty writes are
//! strictly sequential and one per transition.

use crate::mapper::{clamped_duty, map_duty};
use vstd::prelude::*;

verus! {

/// One step of the control sequence: a target angle in degrees and how long
/// to hold it, in milliseconds.
#[derive(Clone, Copy, PartialEq, Eq, Structural, Debug)]
pub struct Waypoint {
    pub position_degrees: u16,
    pub hold_ms: u64,
}

/// What the control loop must do for one waypoint transition: command the
/// PWM channel to `duty`, then suspend the task for `hold_ms` milliseconds
/// before advancing to the next waypoint.
#[derive(Clone, Copy, PartialEq, Eq, Structural, Debug)]
pub struct Transition {
    pub duty: u32,
    pub hold_ms: u64,
}

/// Why a sequencer could not be built.
#[derive(Clone, Copy, PartialEq, Eq, Structural, Debug)]
pub enum ConfigError {
    /// The waypoint list was empty; the sequence must be non-empty to cycle.
    EmptySequence,
    /// The timer resolution was zero; a timer has at least one duty step.
    ZeroResolution,
}

/// The index that follows `i` in a cyclic sequence of length `n`.
pub open spec fn next_index(i: int, n: int) -> int {
    if i + 1 == n {
        0
    } else {
        i + 1
    }
}

/// The index reached from `i` after `k` transitions in a cyclic sequence of
/// length `n`.
pub open spec fn index_after(i: int, n: int, k: nat) -> int
    decreases k,
{
    if k == 0 {
        i
    } else {
        next_index(index_after(i, n, (k - 1) as nat), n)
    }
}

/// Drives the PWM channel through the waypoint sequence forever: at each
/// step it maps the current waypoint's angle to a duty value, reports it
/// together with the hold duration, and advances to the next waypoint,
/// wrapping to the first after the last.
pub struct Sequencer {
    /// The ordered, cyclic waypoint table; invariant: non-empty.
    pub waypoints: Vec<Waypoint>,
    /// Number of duty steps of the PWM timer; invariant: at least one.
    pub resolution: u32,
    /// Duty value of the 0-degree mechanical stop.
    pub min_duty_offset: u32,
    /// The waypoint the next transition will command; invariant: in bounds.
    pub index: usize,
}

impl Sequencer {
    /// Well-formedness: the sequence is non-empty, the current index is in
    /// bounds, and the timer has at least one duty step.
    pub open spec fn wf(self) -> bool {
        &&& self.waypoints@.len() >= 1
        &&& self.index < self.waypoints@.len()
        &&& self.resolution >= 1
    }

    /// The duty value the sequencer commands for the waypoint at `i`.
    pub open spec fn duty_at(self, i: int) -> int {
        clamped_duty(
            self.waypoints@[i].position_degrees as int,
            self.resolution as int,
            self.min_duty_offset as int,
        )
    }

    /// Build a sequencer positioned at the first waypoint. Fails exactly
    /// when the waypoint list is empty or the resolution is zero.
    pub fn new(waypoints: Vec<Waypoint>, resolution: u32, min_duty_offset: u32) -> (r: Result<
        Sequencer,
        ConfigError,
    >)
        ensures
            r is Ok <==> waypoints@.len() >= 1 && resolution >= 1,
            waypoints@.len() == 0 ==> r == Err::<Sequencer, ConfigError>(
                ConfigError::EmptySequence,
            ),
            waypoints@.len() >= 1 && resolution == 0 ==> r == Err::<Sequencer, ConfigError>(
                ConfigError::ZeroResolution,
            ),
            r matches Ok(s) ==> s.wf() && s.waypoints@ == waypoints@ && s.resolution == resolution
                && s.min_duty_offset == min_duty_offset && s.index == 0,
    {
        if waypoints.len() == 0 {
            Err(ConfigError::EmptySequence)
        } else if resolution == 0 {
            Err(ConfigError::ZeroResolution)
        } else {
            Ok(Sequencer { waypoints, resolution, min_duty_offset, index: 0 })
        }
    }

    /// Perform one waypoint transition: report the duty value and hold
    /// duration of the current waypoint and advance to the next one,
    /// wrapping to the first after the last. The caller must write the duty
    /// to the PWM channel and let the hold duration elapse before stepping
    /// again; exactly one duty write corresponds to each call.
    pub fn step(&mut self) -> (t: Transition)
        requires
            old(self).wf(),
        ensures
            final(self).wf(),
            final(self).waypoints@ == old(self).waypoints@,
            final(self).resolution == old(self).resolution,
            final(self).min_duty_offset == old(self).min_duty_offset,
            final(self).index as int == next_index(
                old(self).index as int,
                old(self).waypoints@.len() as int,
            ),
            t.duty == old(self).duty_at(old(self).index as int),
            t.duty < old(self).resolution,
            t.hold_ms == old(self).waypoints@[old(self).index as int].hold_ms,
    {
        let len = self.waypoints.len();
        let wp = self.waypoints[self.index];
        let duty = map_duty(wp.position_degrees, self.resolution, self.min_duty_offset);
        self.index = if self.index + 1 == len {
            0
        } else {
            self.index + 1
        };
        Transition { duty, hold_ms: wp.hold_ms }
    }
}

/// Stepping at most once around the cycle moves the index linearly, wrapping
/// a single time: from `i`, `k` transitions reach `i + k`, less `n` once the
/// sum passes the end of the sequence.
proof fn lemma_index_after_linear(i: int, n: int, k: nat)
    requires
        0 <= i < n,
        k <= n,
    ensures
        index_after(i, n, k) == if i + k < n {
            i + k
        } else {
            i + k - n
        },
    decreases k,
{
    if k > 0 {
        lemma_index_after_linear(i, n, (k - 1) as nat);
    }
}

/// After as many transitions as the sequence has waypoints, the sequencer is
/// back at the waypoint it started from, and — since a step changes neither
/// the waypoint table nor the timer calibration — the duty it commands there
/// is identical to the one it commanded the first time around.
pub proof fn lemma_full_cycle(s: Sequencer)
    requires
        s.wf(),
    ensures
        index_after(s.index as int, s.waypoints@.len() as int, s.waypoints@.len()) == s.index as int,
        s.duty_at(index_after(s.index as int, s.waypoints@.len() as int, s.waypoints@.len()))
            == s.duty_at(s.index as int),
{
    lemma_index_after_linear(s.index as int, s.waypoints@.len() as int, s.waypoints@.len());
}

} // verus!

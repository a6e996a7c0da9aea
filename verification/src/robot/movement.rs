//! The decisions of the motion planner while the arm travels to a target.
//!
//! With a target set, every tick of the planner either speeds up towards the
//! target, slows down, or stops on it. Which of the three it is depends on
//! three comparisons of distances and speeds, which the caller makes.

use vstd::prelude::*;

verus! {

/// What the planner does in one tick on the way to a target.
#[derive(Debug, Copy, Clone, PartialEq, Eq, Structural)]
pub enum Phase {
    /// Gain speed in the direction of the target.
    Accelerate,
    /// Lose speed, against the direction of travel.
    Brake,
    /// Take the target position, come to rest and drop the target.
    Arrive,
}

/// The phase that the three comparisons call for.
///
/// * `beyond_stopping_distance`: the target is farther away than the arm
///   needs to come to rest from its present speed.
/// * `within_tolerance`: the target is closer than the arrival tolerance.
/// * `below_step_speed`: the arm is slower than one tick of acceleration
///   makes it.
pub open spec fn phase(
    beyond_stopping_distance: bool,
    within_tolerance: bool,
    below_step_speed: bool,
) -> Phase {
    if beyond_stopping_distance {
        Phase::Accelerate
    } else if within_tolerance && below_step_speed {
        Phase::Arrive
    } else {
        Phase::Brake
    }
}

/// Chooses the phase of this tick. See [`phase`] for the three comparisons.
pub fn goto_phase(
    beyond_stopping_distance: bool,
    within_tolerance: bool,
    below_step_speed: bool,
) -> (chosen: Phase)
    ensures
        chosen == phase(beyond_stopping_distance, within_tolerance, below_step_speed),
{
    if beyond_stopping_distance {
        Phase::Accelerate
    } else if within_tolerance && below_step_speed {
        Phase::Arrive
    } else {
        Phase::Brake
    }
}

/// The arm stops on the target only when it is both close enough and slow
/// enough, and never while it still has room to gain speed; it gains speed
/// exactly while the target is beyond its stopping distance.
pub proof fn lemma_phase_conditions(
    beyond_stopping_distance: bool,
    within_tolerance: bool,
    below_step_speed: bool,
)
    ensures
        phase(beyond_stopping_distance, within_tolerance, below_step_speed) == Phase::Arrive <==> (
        !beyond_stopping_distance && within_tolerance && below_step_speed),
        phase(beyond_stopping_distance, within_tolerance, below_step_speed) == Phase::Accelerate
            <==> beyond_stopping_distance,
{
}

} // verus!

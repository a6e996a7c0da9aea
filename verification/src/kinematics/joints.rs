//! Motion transfers: how the angle asked of a joint becomes the angle of the
//! actuator that moves it.

use vstd::prelude::*;

verus! {

/// A direct drive: the actuator sits on the axis of the joint, so the joint
/// turns exactly as the actuator does.
#[derive(Debug, Copy, Clone)]
pub struct DirectDrive {}

impl DirectDrive {
    pub fn new() -> (drive: DirectDrive)
        ensures
            drive == (DirectDrive {  }),
    {
        DirectDrive {  }
    }

    /// The actuator angle that puts the joint at `target`: `target` itself,
    /// in whatever representation the caller keeps angles.
    pub fn get_pivot_angle<A>(&self, target: A) -> (angle: A)
        ensures
            angle == target,
    {
        target
    }
}

} // verus!

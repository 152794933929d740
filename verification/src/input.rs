//! Per-frame movement and rotation intents.
//!
//! The input collector polls whatever device it likes once per frame and
//! reduces it to these twelve flags; the camera update consumes them and
//! nothing else. A flag is active while its key (or axis) is held, so a
//! channel held over several frames keeps firing.

use vstd::prelude::*;

verus! {

/// The twelve movement and rotation channels of one frame.
#[derive(Clone, Copy, Debug, PartialEq, Eq, Structural)]
pub struct Intents {
    /// Strafe along the camera's right axis.
    pub move_left: bool,
    pub move_right: bool,
    /// Ascend and descend along the camera's up axis.
    pub move_up: bool,
    pub move_down: bool,
    /// Move along the camera's forward axis.
    pub move_forward: bool,
    pub move_backward: bool,
    /// Turn about the camera's up axis.
    pub yaw_left: bool,
    pub yaw_right: bool,
    /// Turn about the camera's right axis.
    pub pitch_up: bool,
    pub pitch_down: bool,
    /// Turn about the camera's forward axis.
    pub roll_left: bool,
    pub roll_right: bool,
}

/// Some channel is active this frame.
pub open spec fn intents_any(it: Intents) -> bool {
    it.move_left || it.move_right || it.move_up || it.move_down || it.move_forward
        || it.move_backward || it.yaw_left || it.yaw_right || it.pitch_up || it.pitch_down
        || it.roll_left || it.roll_right
}

impl Intents {
    /// A frame in which no channel fired.
    pub fn none() -> (r: Intents)
        ensures
            !intents_any(r),
            r == (Intents {
                move_left: false,
                move_right: false,
                move_up: false,
                move_down: false,
                move_forward: false,
                move_backward: false,
                yaw_left: false,
                yaw_right: false,
                pitch_up: false,
                pitch_down: false,
                roll_left: false,
                roll_right: false,
            }),
    {
        Intents {
            move_left: false,
            move_right: false,
            move_up: false,
            move_down: false,
            move_forward: false,
            move_backward: false,
            yaw_left: false,
            yaw_right: false,
            pitch_up: false,
            pitch_down: false,
            roll_left: false,
            roll_right: false,
        }
    }

    /// Whether some channel is active this frame.
    pub fn any(&self) -> (r: bool)
        ensures
            r == intents_any(*self),
    {
        self.move_left || self.move_right || self.move_up || self.move_down || self.move_forward
            || self.move_backward || self.yaw_left || self.yaw_right || self.pitch_up
            || self.pitch_down || self.roll_left || self.roll_right
    }
}

} // verus!

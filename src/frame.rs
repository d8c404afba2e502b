use crate::robot_command::Direction;
use vstd::prelude::*;

verus! {

/// A wire frame: `[lateral, forward/back, rotation, terminator]`.
pub type Frame = [u8; 4];

/// The value of a control channel at rest.
pub const NEUTRAL: u8 = 127;

/// The byte that ends every frame (ASCII newline).
pub const TERMINATOR: u8 = 10;

/// The largest speed a motion command may carry.
pub const MAX_SPEED: u8 = 127;

/// The forward/back channel for a motion in `d` at `speed`.
pub open spec fn forward_channel(d: Direction, speed: u8) -> int {
    match d {
        Direction::Forward => 127 + speed,
        Direction::Backward => 127 - speed,
        _ => 127,
    }
}

/// The rotation channel for a motion in `d` at `speed`.
pub open spec fn rotation_channel(d: Direction, speed: u8) -> int {
    match d {
        Direction::LeftTurn => 127 - speed,
        Direction::RightTurn => 127 + speed,
        _ => 127,
    }
}

/// The frame that brings every channel to rest.
pub open spec fn stop_frame_spec() -> Frame {
    [127u8, 127u8, 127u8, 10u8]
}

/// The frame that moves the robot in `d` at `speed`; the lateral channel stays at rest.
pub open spec fn motion_frame_spec(d: Direction, speed: u8) -> Frame {
    [127u8, forward_channel(d, speed) as u8, rotation_channel(d, speed) as u8, 10u8]
}

/// Builds the frame that brings every channel to rest.
pub fn stop_frame() -> (r: Frame)
    ensures
        r == stop_frame_spec(),
{
    [NEUTRAL, NEUTRAL, NEUTRAL, TERMINATOR]
}

/// Builds the frame that moves the robot in `direction` at `speed`.
pub fn motion_frame(direction: Direction, speed: u8) -> (r: Frame)
    requires
        speed <= MAX_SPEED,
    ensures
        r == motion_frame_spec(direction, speed),
{
    let mut forward: u8 = NEUTRAL;
    let mut rotation: u8 = NEUTRAL;
    match direction {
        Direction::Forward => {
            forward = NEUTRAL + speed;
        },
        Direction::Backward => {
            forward = NEUTRAL - speed;
        },
        Direction::LeftTurn => {
            rotation = NEUTRAL - speed;
        },
        Direction::RightTurn => {
            rotation = NEUTRAL + speed;
        },
    }
    [NEUTRAL, forward, rotation, TERMINATOR]
}

/// Every channel of a motion frame fits a byte, the lateral channel and the
/// terminator are fixed, and at most one of the other two channels leaves rest.
pub proof fn lemma_motion_frame_channels(d: Direction, speed: u8)
    requires
        speed <= MAX_SPEED,
    ensures
        0 <= forward_channel(d, speed) <= 255,
        0 <= rotation_channel(d, speed) <= 255,
        motion_frame_spec(d, speed)@[0] == NEUTRAL,
        motion_frame_spec(d, speed)@[1] == forward_channel(d, speed),
        motion_frame_spec(d, speed)@[2] == rotation_channel(d, speed),
        motion_frame_spec(d, speed)@[3] == TERMINATOR,
        forward_channel(d, speed) == 127 || rotation_channel(d, speed) == 127,
{
}

/// At a positive speed a motion frame moves exactly one of the forward/back and
/// rotation channels away from rest.
pub proof fn lemma_motion_frame_single_channel(d: Direction, speed: u8)
    requires
        0 < speed <= MAX_SPEED,
    ensures
        (motion_frame_spec(d, speed)@[1] != NEUTRAL) != (motion_frame_spec(d, speed)@[2]
            != NEUTRAL),
{
}

} // verus!

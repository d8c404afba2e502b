use crate::frame::MAX_SPEED;
use std::time::Duration;
use vstd::prelude::*;

verus! {

/// One of the four ways the robot can move.
#[derive(Debug, Clone, Copy, PartialEq, Eq, Structural)]
pub enum Direction {
    Forward,
    Backward,
    LeftTurn,
    RightTurn,
}

/// A motion instruction, as it travels from a request source to the dispatcher.
#[derive(Debug, Clone, Copy, PartialEq, Eq)]
pub enum RobotCommand {
    /// Move in `direction` for `duration`; `speed` lies in `[0, 127]`.
    MoveInDirection { direction: Direction, duration: Duration, speed: u8 },
    /// Halt at once.
    Stop,
    /// Halt, then end the dispatcher's run loop.
    EndProgram,
}

impl RobotCommand {
    /// Whether the command's fields lie in their ranges: a motion's speed is at most 127.
    pub open spec fn well_formed(&self) -> bool {
        match *self {
            RobotCommand::MoveInDirection { speed, .. } => speed <= MAX_SPEED,
            _ => true,
        }
    }

    /// Tells whether the command's fields lie in their ranges.
    pub fn is_well_formed(&self) -> (r: bool)
        ensures
            r == self.well_formed(),
    {
        match self {
            RobotCommand::MoveInDirection { speed, .. } => *speed <= MAX_SPEED,
            _ => true,
        }
    }
}

/// Why a motion request was turned down before it became a command.
#[derive(Debug, Clone, Copy, PartialEq, Eq, Structural)]
pub enum RequestError {
    /// The requested speed lies above 127.
    SpeedOutOfRange,
}

/// The direction of a motion request that names none.
pub const DEFAULT_DIRECTION: Direction = Direction::Forward;

/// The speed of a motion request that names none.
pub const DEFAULT_SPEED: u8 = 50;

/// Turns a motion request into a command: a missing direction becomes
/// `Forward`, a missing speed becomes 50, and a speed above 127 is refused.
pub fn build_move_command(direction: Option<Direction>, duration: Duration, speed: Option<u8>) -> (r:
    Result<RobotCommand, RequestError>)
    ensures
        ({
            let s = match speed {
                Some(s) => s,
                None => DEFAULT_SPEED,
            };
            let d = match direction {
                Some(d) => d,
                None => DEFAULT_DIRECTION,
            };
            if s <= MAX_SPEED {
                r == Ok::<RobotCommand, RequestError>(
                    RobotCommand::MoveInDirection { direction: d, duration, speed: s },
                )
            } else {
                r == Err::<RobotCommand, RequestError>(RequestError::SpeedOutOfRange)
            }
        }),
        r is Ok ==> r->Ok_0.well_formed(),
{
    let speed: u8 = match speed {
        Some(s) => s,
        None => DEFAULT_SPEED,
    };
    let direction = match direction {
        Some(d) => d,
        None => DEFAULT_DIRECTION,
    };
    if speed > MAX_SPEED {
        return Err(RequestError::SpeedOutOfRange);
    }
    Ok(RobotCommand::MoveInDirection { direction, duration, speed })
}

} // verus!

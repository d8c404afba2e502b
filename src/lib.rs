//! Command model and motion dispatcher for a serially driven robot.
//!
//! Motion requests are turned into fixed four-byte frames and a timed script of
//! writes and pauses. The dispatcher is a state machine: whoever owns the serial
//! port performs the action it names and reports back how it went. A small vote
//! tally serves the chat front end.

pub mod frame;
pub mod robot_command;
pub mod dispatcher;
pub mod laws;
pub mod votes;

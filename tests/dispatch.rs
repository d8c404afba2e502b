use robot_serial::dispatcher::{command_plan, Action, Dispatcher, Event, PACING_MILLIS};
use robot_serial::frame::{motion_frame, stop_frame, Frame};
use robot_serial::robot_command::{Direction, RobotCommand};
use std::time::Duration;

const STOP: Frame = [127, 127, 127, b'\n'];

/// What a run of the dispatcher did: the frames written, the sleeps taken and
/// how the run ended (`Ok` on finish, `Err` on abort).
struct Run {
    frames: Vec<Frame>,
    sleeps: Vec<Duration>,
    pauses: Vec<u64>,
    received: usize,
    outcome: Result<(), &'static str>,
}

/// Drives a dispatcher over `cmds`; the write numbered `fail_at` (from zero) fails.
fn simulate(cmds: &[RobotCommand], fail_at: Option<usize>) -> Run {
    let mut d = Dispatcher::new();
    let mut run = Run { frames: vec![], sleeps: vec![], pauses: vec![], received: 0, outcome: Ok(()) };
    let mut writes = 0;
    let mut action = d.current_action();
    for _ in 0..1000 {
        let event = match action {
            Action::Receive => {
                if run.received < cmds.len() {
                    run.received += 1;
                    Event::Received(cmds[run.received - 1])
                } else {
                    Event::Closed
                }
            }
            Action::Write(f) => {
                let failed = fail_at == Some(writes);
                writes += 1;
                if failed {
                    Event::WriteFailed
                } else {
                    run.frames.push(f);
                    Event::Written
                }
            }
            Action::Sleep(t) => {
                run.sleeps.push(t);
                Event::Slept
            }
            Action::Pause(ms) => {
                run.pauses.push(ms);
                Event::Slept
            }
            Action::Finish => return run,
            Action::Abort => {
                run.outcome = Err("write failed");
                return run;
            }
        };
        action = d.step(event);
    }
    panic!("the dispatcher did not end");
}

fn mv(direction: Direction, ms: u64, speed: u8) -> RobotCommand {
    RobotCommand::MoveInDirection { direction, duration: Duration::from_millis(ms), speed }
}

#[test]
fn stop_frame_is_neutral() {
    assert_eq!(stop_frame(), STOP);
}

#[test]
fn motion_frames_for_each_direction() {
    assert_eq!(motion_frame(Direction::Forward, 50), [127, 177, 127, b'\n']);
    assert_eq!(motion_frame(Direction::Backward, 50), [127, 77, 127, b'\n']);
    assert_eq!(motion_frame(Direction::LeftTurn, 50), [127, 127, 77, b'\n']);
    assert_eq!(motion_frame(Direction::RightTurn, 100), [127, 127, 227, b'\n']);
}

#[test]
fn motion_frames_at_the_speed_limits() {
    assert_eq!(motion_frame(Direction::Forward, 127), [127, 254, 127, b'\n']);
    assert_eq!(motion_frame(Direction::Backward, 127), [127, 0, 127, b'\n']);
    assert_eq!(motion_frame(Direction::LeftTurn, 127), [127, 127, 0, b'\n']);
    assert_eq!(motion_frame(Direction::RightTurn, 127), [127, 127, 254, b'\n']);
    for d in [Direction::Forward, Direction::Backward, Direction::LeftTurn, Direction::RightTurn] {
        assert_eq!(motion_frame(d, 0), STOP);
    }
}

#[test]
fn exactly_one_channel_moves() {
    for d in [Direction::Forward, Direction::Backward, Direction::LeftTurn, Direction::RightTurn] {
        for speed in 1..=127u8 {
            let f = motion_frame(d, speed);
            assert_eq!(f[0], 127);
            assert_eq!(f[3], b'\n');
            assert!((f[1] != 127) != (f[2] != 127));
        }
    }
}

#[test]
fn plan_of_each_command() {
    let m = mv(Direction::Backward, 300, 20);
    assert_eq!(
        command_plan(&m),
        vec![
            Action::Write(STOP),
            Action::Write([127, 107, 127, b'\n']),
            Action::Sleep(Duration::from_millis(300)),
            Action::Write(STOP),
            Action::Pause(PACING_MILLIS),
        ]
    );
    assert_eq!(command_plan(&RobotCommand::Stop), vec![Action::Write(STOP), Action::Pause(100)]);
    assert_eq!(command_plan(&RobotCommand::EndProgram), vec![Action::Write(STOP), Action::Finish]);
}

#[test]
fn forward_move_scenario() {
    let run = simulate(&[mv(Direction::Forward, 500, 50)], None);
    assert_eq!(run.frames, vec![STOP, [127, 177, 127, b'\n'], STOP]);
    assert_eq!(run.sleeps, vec![Duration::from_millis(500)]);
    assert_eq!(run.pauses, vec![100]);
    assert_eq!(run.outcome, Ok(()));
}

#[test]
fn right_turn_scenario() {
    let run = simulate(&[mv(Direction::RightTurn, 200, 100)], None);
    assert_eq!(run.frames, vec![STOP, [127, 127, 227, b'\n'], STOP]);
    assert_eq!(run.sleeps, vec![Duration::from_millis(200)]);
}

#[test]
fn stop_writes_one_stop_frame() {
    let run = simulate(&[RobotCommand::Stop], None);
    assert_eq!(run.frames, vec![STOP]);
    assert!(run.sleeps.is_empty());
    assert_eq!(run.pauses, vec![100]);
}

#[test]
fn end_program_leaves_the_rest_of_the_queue() {
    let cmds = [RobotCommand::EndProgram, mv(Direction::Forward, 10, 5), RobotCommand::Stop];
    let run = simulate(&cmds, None);
    assert_eq!(run.frames, vec![STOP]);
    assert_eq!(run.received, 1);
    assert!(run.pauses.is_empty());
    assert_eq!(run.outcome, Ok(()));
}

#[test]
fn commands_run_in_queue_order() {
    let cmds = [
        mv(Direction::LeftTurn, 30, 10),
        RobotCommand::Stop,
        mv(Direction::Forward, 40, 20),
        RobotCommand::EndProgram,
    ];
    let run = simulate(&cmds, None);
    assert_eq!(
        run.frames,
        vec![STOP, [127, 127, 117, b'\n'], STOP, STOP, STOP, [127, 147, 127, b'\n'], STOP, STOP]
    );
    assert_eq!(run.sleeps, vec![Duration::from_millis(30), Duration::from_millis(40)]);
    assert_eq!(run.pauses, vec![100, 100, 100]);
    assert_eq!(run.received, 4);
}

#[test]
fn closed_queue_finishes() {
    let run = simulate(&[], None);
    assert!(run.frames.is_empty());
    assert_eq!(run.outcome, Ok(()));
}

#[test]
fn failed_write_aborts_at_each_frame() {
    let cmds = [mv(Direction::Forward, 5, 50), RobotCommand::Stop];
    for k in 0..3 {
        let run = simulate(&cmds, Some(k));
        assert_eq!(run.outcome, Err("write failed"));
        assert_eq!(run.frames.len(), k);
        assert_eq!(run.received, 1);
    }
    let run = simulate(&cmds, Some(1));
    assert!(run.sleeps.is_empty());
}

#[test]
fn unrelated_events_are_ignored() {
    let mut d = Dispatcher::new();
    assert_eq!(d.step(Event::Written), Action::Receive);
    assert_eq!(d.step(Event::Slept), Action::Receive);
    assert_eq!(d.step(Event::Received(RobotCommand::Stop)), Action::Write(STOP));
    assert_eq!(d.step(Event::Received(RobotCommand::EndProgram)), Action::Write(STOP));
    assert_eq!(d.step(Event::Slept), Action::Write(STOP));
    assert_eq!(d.step(Event::Written), Action::Pause(100));
    assert_eq!(d.step(Event::Written), Action::Pause(100));
    assert_eq!(d.step(Event::Slept), Action::Receive);
    assert_eq!(d.step(Event::Closed), Action::Finish);
    assert_eq!(d.step(Event::Received(RobotCommand::Stop)), Action::Finish);
}

#[test]
fn abort_is_final() {
    let mut d = Dispatcher::new();
    d.step(Event::Received(RobotCommand::Stop));
    assert_eq!(d.step(Event::WriteFailed), Action::Abort);
    assert_eq!(d.step(Event::Written), Action::Abort);
    assert_eq!(d.step(Event::Received(RobotCommand::Stop)), Action::Abort);
    assert_eq!(d.current_action(), Action::Abort);
}

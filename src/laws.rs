use crate::dispatcher::{
    answers, current, drive, is_terminal, next_pending, plan, script, success_of, Action, Event,
    PACING_MILLIS,
};
use crate::frame::{motion_frame_spec, stop_frame_spec, Frame};
use crate::robot_command::{Direction, RobotCommand};
use std::time::Duration;
use vstd::prelude::*;

verus! {

/// The frames that `actions` write, in order.
pub open spec fn frames_written(actions: Seq<Action>) -> Seq<Frame>
    decreases actions.len(),
{
    if actions.len() == 0 {
        Seq::empty()
    } else {
        let rest = frames_written(actions.drop_first());
        match actions[0] {
            Action::Write(f) => seq![f] + rest,
            _ => rest,
        }
    }
}

/// The work left after the events `es` are reported in turn, starting from `pending`.
pub open spec fn after_events(pending: Seq<Action>, es: Seq<Event>) -> Seq<Action>
    decreases es.len(),
{
    if es.len() == 0 {
        pending
    } else {
        after_events(next_pending(pending, es[0]), es.drop_first())
    }
}

/// Whether every action of `p` is a write, a sleep or a pause.
pub open spec fn only_timed_io(p: Seq<Action>) -> bool {
    forall|i: int| 0 <= i < p.len() ==> (p[i] is Write || p[i] is Sleep || p[i] is Pause)
}

proof fn lemma_drive_timed_io(p: Seq<Action>, cmds: Seq<RobotCommand>)
    requires
        only_timed_io(p),
    ensures
        drive(p, cmds) == p + drive(Seq::empty(), cmds),
    decreases p.len(),
{
    if p.len() > 0 {
        let a = p[0];
        assert(next_pending(p, success_of(a)) == p.drop_first());
        lemma_drive_timed_io(p.drop_first(), cmds);
        assert(seq![a] + p.drop_first() =~= p);
        assert(seq![a] + (p.drop_first() + drive(Seq::empty(), cmds)) =~= p + drive(
            Seq::empty(),
            cmds,
        ));
    } else {
        assert(p + drive(Seq::empty(), cmds) =~= drive(Seq::empty(), cmds));
    }
}

/// A motion command writes a stop frame, its motion frame and another stop
/// frame, in that order and no other frame; it sleeps for its duration between
/// the motion frame and the last stop frame, then pauses for the guard interval.
pub proof fn lemma_motion_sequence(direction: Direction, duration: Duration, speed: u8)
    ensures
        ({
            let p = plan(RobotCommand::MoveInDirection { direction, duration, speed });
            &&& frames_written(p) == seq![
                stop_frame_spec(),
                motion_frame_spec(direction, speed),
                stop_frame_spec(),
            ]
            &&& p.len() == 5
            &&& p[1] == Action::Write(motion_frame_spec(direction, speed))
            &&& p[2] == Action::Sleep(duration)
            &&& p[3] == Action::Write(stop_frame_spec())
            &&& p[4] == Action::Pause(PACING_MILLIS)
        }),
{
    let p = plan(RobotCommand::MoveInDirection { direction, duration, speed });
    reveal_with_fuel(frames_written, 6);
    assert(p.drop_first().drop_first().drop_first().drop_first().drop_first() =~= Seq::<
        Action,
    >::empty());
    assert(frames_written(p) =~= seq![
        stop_frame_spec(),
        motion_frame_spec(direction, speed),
        stop_frame_spec(),
    ]);
}

/// A stop command writes exactly one frame, the stop frame, and then pauses.
pub proof fn lemma_stop_sequence()
    ensures
        frames_written(plan(RobotCommand::Stop)) == seq![stop_frame_spec()],
        plan(RobotCommand::Stop) == seq![
            Action::Write(stop_frame_spec()),
            Action::Pause(PACING_MILLIS),
        ],
{
    let p = plan(RobotCommand::Stop);
    reveal_with_fuel(frames_written, 3);
    assert(p.drop_first().drop_first() =~= Seq::<Action>::empty());
    assert(frames_written(p) =~= seq![stop_frame_spec()]);
}

/// Ending the program writes one stop frame and then finishes: whatever else
/// is queued behind it is never taken.
pub proof fn lemma_end_program_finishes(rest: Seq<RobotCommand>)
    ensures
        drive(Seq::empty(), seq![RobotCommand::EndProgram] + rest) == seq![
            Action::Receive,
            Action::Write(stop_frame_spec()),
            Action::Finish,
        ],
        frames_written(plan(RobotCommand::EndProgram)) == seq![stop_frame_spec()],
{
    let cmds = seq![RobotCommand::EndProgram] + rest;
    let p = plan(RobotCommand::EndProgram);
    assert(cmds[0] == RobotCommand::EndProgram);
    assert(next_pending(Seq::empty(), Event::Received(cmds[0])) == p);
    assert(next_pending(p, Event::Written) =~= seq![Action::Finish]);
    assert(drive(seq![Action::Finish], cmds.drop_first()) == seq![Action::Finish]);
    assert(drive(p, cmds.drop_first()) =~= seq![Action::Write(stop_frame_spec()), Action::Finish]);
    reveal_with_fuel(frames_written, 3);
    assert(p.drop_first().drop_first() =~= Seq::<Action>::empty());
    assert(frames_written(p) =~= seq![stop_frame_spec()]);
}

/// Commands are carried out one at a time in the order they are received: when
/// every write and sleep succeeds, an idle dispatcher fed `cmds` asks for each
/// command's plan in turn, each after a wait, up to the first `EndProgram`.
pub proof fn lemma_commands_in_order(cmds: Seq<RobotCommand>)
    ensures
        drive(Seq::empty(), cmds) == script(cmds),
    decreases cmds.len(),
{
    if cmds.len() == 0 {
        assert(drive(Seq::empty(), cmds) =~= script(cmds));
    } else {
        let c = cmds[0];
        let rest = cmds.drop_first();
        let p = plan(c);
        assert(next_pending(Seq::empty(), Event::Received(c)) == p);
        if c is EndProgram {
            assert(next_pending(p, Event::Written) =~= seq![Action::Finish]);
            assert(drive(seq![Action::Finish], rest) == seq![Action::Finish]);
            assert(drive(p, rest) =~= p);
        } else {
            lemma_drive_timed_io(p, rest);
            lemma_commands_in_order(rest);
            assert(seq![Action::Receive] + (p + script(rest)) =~= seq![Action::Receive] + p
                + script(rest));
        }
    }
}

/// A failed write ends the run loop with an abort, and from then on no event
/// leads to another action: no further frame is written.
pub proof fn lemma_write_failure_aborts(pending: Seq<Action>, later: Seq<Event>)
    requires
        current(pending) is Write,
    ensures
        next_pending(pending, Event::WriteFailed) == seq![Action::Abort],
        after_events(seq![Action::Abort], later) == seq![Action::Abort],
        current(after_events(next_pending(pending, Event::WriteFailed), later)) == Action::Abort,
    decreases later.len(),
{
    if later.len() > 0 {
        assert(current(seq![Action::Abort]) == Action::Abort);
        assert(!answers(Action::Abort, later[0]));
        lemma_write_failure_aborts(pending, later.drop_first());
    }
}

/// Once the run loop is asked to end, successfully or not, no event changes
/// the dispatcher.
pub proof fn lemma_terminal_is_final(pending: Seq<Action>, e: Event)
    requires
        is_terminal(current(pending)),
    ensures
        next_pending(pending, e) == pending,
{
}

} // verus!

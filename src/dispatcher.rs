use crate::frame::{motion_frame, motion_frame_spec, stop_frame, stop_frame_spec, Frame};
use crate::robot_command::RobotCommand;
use std::time::Duration;
use vstd::prelude::*;

verus! {

/// The guard interval, in milliseconds, between two non-terminal commands.
pub const PACING_MILLIS: u64 = 100;

/// What the owner of the serial port is asked to do next.
#[derive(Debug, Clone, Copy, PartialEq, Eq)]
pub enum Action {
    /// Wait for the next command on the queue; answer `Received` or `Closed`.
    Receive,
    /// Write this frame to the port; answer `Written` or `WriteFailed`.
    Write(Frame),
    /// Block for the length of a motion; answer `Slept`.
    Sleep(Duration),
    /// Block for this many milliseconds before the next command; answer `Slept`.
    Pause(u64),
    /// Return successfully from the run loop.
    Finish,
    /// Return from the run loop with the error that the failed write gave.
    Abort,
}

/// How the last action went.
#[derive(Debug, Clone, Copy)]
pub enum Event {
    /// The queue handed out this command.
    Received(RobotCommand),
    /// Every sender is gone and the queue is empty.
    Closed,
    /// The frame was written.
    Written,
    /// The frame could not be written.
    WriteFailed,
    /// The sleep or pause is over.
    Slept,
}

/// The actions that carry out one command, in order.
pub open spec fn plan(c: RobotCommand) -> Seq<Action> {
    match c {
        RobotCommand::MoveInDirection { direction, duration, speed } => seq![
            Action::Write(stop_frame_spec()),
            Action::Write(motion_frame_spec(direction, speed)),
            Action::Sleep(duration),
            Action::Write(stop_frame_spec()),
            Action::Pause(PACING_MILLIS),
        ],
        RobotCommand::Stop => seq![Action::Write(stop_frame_spec()), Action::Pause(PACING_MILLIS)],
        RobotCommand::EndProgram => seq![Action::Write(stop_frame_spec()), Action::Finish],
    }
}

/// The action asked for while `pending` is the work left: its head, or a wait
/// for the next command when nothing is left.
pub open spec fn current(pending: Seq<Action>) -> Action {
    if pending.len() == 0 {
        Action::Receive
    } else {
        pending[0]
    }
}

/// Whether `e` reports the outcome of `a`.
pub open spec fn answers(a: Action, e: Event) -> bool {
    match a {
        Action::Receive => e is Received || e is Closed,
        Action::Write(_) => e is Written || e is WriteFailed,
        Action::Sleep(_) | Action::Pause(_) => e is Slept,
        Action::Finish | Action::Abort => false,
    }
}

/// The work left after `e` is reported while `pending` is the work left. An event
/// that does not report on the current action changes nothing.
pub open spec fn next_pending(pending: Seq<Action>, e: Event) -> Seq<Action> {
    if !answers(current(pending), e) {
        pending
    } else {
        match e {
            Event::Received(c) => plan(c),
            Event::Closed => seq![Action::Finish],
            Event::WriteFailed => seq![Action::Abort],
            Event::Written | Event::Slept => pending.drop_first(),
        }
    }
}

/// Whether `a` ends the run loop.
pub open spec fn is_terminal(a: Action) -> bool {
    a is Finish || a is Abort
}

/// The event that reports success of `a`.
pub open spec fn success_of(a: Action) -> Event {
    match a {
        Action::Write(_) => Event::Written,
        _ => Event::Slept,
    }
}

/// The actions a dispatcher with work `pending` asks for when every write and
/// sleep succeeds and each wait is answered with the next of `cmds`, or with
/// `Closed` once `cmds` is exhausted.
pub open spec fn drive(pending: Seq<Action>, cmds: Seq<RobotCommand>) -> Seq<Action>
    decreases cmds.len(), pending.len(),
{
    let a = current(pending);
    if is_terminal(a) {
        seq![a]
    } else if a is Receive {
        if cmds.len() == 0 {
            seq![a, current(next_pending(pending, Event::Closed))]
        } else {
            seq![a] + drive(next_pending(pending, Event::Received(cmds[0])), cmds.drop_first())
        }
    } else {
        seq![a] + drive(next_pending(pending, success_of(a)), cmds)
    }
}

/// Each command's plan in turn, each preceded by a wait, up to and including the
/// first `EndProgram`; a queue that runs dry is followed by a final wait and
/// `Finish`.
pub open spec fn script(cmds: Seq<RobotCommand>) -> Seq<Action>
    decreases cmds.len(),
{
    if cmds.len() == 0 {
        seq![Action::Receive, Action::Finish]
    } else if cmds[0] is EndProgram {
        seq![Action::Receive] + plan(cmds[0])
    } else {
        seq![Action::Receive] + plan(cmds[0]) + script(cmds.drop_first())
    }
}

/// Builds the actions that carry out `cmd`.
pub fn command_plan(cmd: &RobotCommand) -> (r: Vec<Action>)
    requires
        cmd.well_formed(),
    ensures
        r@ == plan(*cmd),
{
    let r = match cmd {
        RobotCommand::MoveInDirection { direction, duration, speed } => vec![
            Action::Write(stop_frame()),
            Action::Write(motion_frame(*direction, *speed)),
            Action::Sleep(*duration),
            Action::Write(stop_frame()),
            Action::Pause(PACING_MILLIS),
        ],
        RobotCommand::Stop => vec![Action::Write(stop_frame()), Action::Pause(PACING_MILLIS)],
        RobotCommand::EndProgram => vec![Action::Write(stop_frame()), Action::Finish],
    };
    assert(r@ =~= plan(*cmd));
    r
}

/// The decisions of the motion dispatcher. It owns no port and no queue: its
/// owner performs each action asked for and reports the outcome with `step`.
pub struct Dispatcher {
    pending: Vec<Action>,
}

impl View for Dispatcher {
    type V = Seq<Action>;

    /// The work left for the command in hand, head first.
    closed spec fn view(&self) -> Seq<Action> {
        self.pending@
    }
}

impl Dispatcher {
    /// A dispatcher with no command in hand, waiting for the first one.
    pub fn new() -> (r: Dispatcher)
        ensures
            r@ == Seq::<Action>::empty(),
    {
        Dispatcher { pending: Vec::new() }
    }

    /// The action asked for now.
    pub fn current_action(&self) -> (a: Action)
        ensures
            a == current(self@),
    {
        if self.pending.len() == 0 {
            Action::Receive
        } else {
            self.pending[0]
        }
    }

    /// Takes the outcome of the current action and returns the next action.
    /// A received command must be well formed; an event that does not report on
    /// the current action is ignored.
    pub fn step(&mut self, event: Event) -> (a: Action)
        requires
            event is Received ==> event->Received_0.well_formed(),
        ensures
            final(self)@ == next_pending(old(self)@, event),
            a == current(final(self)@),
    {
        let a = self.current_action();
        match event {
            Event::Received(cmd) => {
                if matches!(a, Action::Receive) {
                    self.pending = command_plan(&cmd);
                }
            },
            Event::Closed => {
                if matches!(a, Action::Receive) {
                    self.pending = vec![Action::Finish];
                }
            },
            Event::Written => {
                if matches!(a, Action::Write(_)) {
                    self.pending.remove(0);
                }
            },
            Event::WriteFailed => {
                if matches!(a, Action::Write(_)) {
                    self.pending = vec![Action::Abort];
                }
            },
            Event::Slept => {
                if matches!(a, Action::Sleep(_) | Action::Pause(_)) {
                    self.pending.remove(0);
                }
            },
        }
        assert(self@ =~= next_pending(old(self)@, event));
        self.current_action()
    }
}

} // verus!

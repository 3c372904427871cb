//! The closed-loop controller that brings the desk to a target height.
//!
//! The controller does no input or output of its own. It is a state machine:
//! it names the next thing to do (read the position, write a command), the
//! caller does it and reports how it went, and the controller moves on. The
//! caller waits `POLL_INTERVAL_MS` before each read.

use crate::codec::{height_in_range, is_valid_height, MotionCommand, PositionSpeed};
use crate::error::BtError;
use vstd::prelude::*;

verus! {

/// How close to the target counts as there, in tenths of a millimetre.
pub const SEEK_TOLERANCE: u16 = 100;

/// The pause before each position reading, in milliseconds.
pub const POLL_INTERVAL_MS: u64 = 200;

/// What one position reading calls for.
#[derive(Clone, Copy, Debug, PartialEq, Eq, Structural)]
pub enum SeekDecision {
    /// The desk stands exactly at the target: done, and nothing is written.
    Arrived,
    /// The desk is within tolerance of the target: stop it, then done.
    Settle,
    /// The desk is too far off: push it on with this command.
    Drive(MotionCommand),
}

/// The decision for a desk at `current` that is to reach `target`.
pub open spec fn seek_decision(target: int, current: int) -> SeekDecision {
    let delta = target - current;
    if delta == 0 {
        SeekDecision::Arrived
    } else if -SEEK_TOLERANCE <= delta <= SEEK_TOLERANCE {
        SeekDecision::Settle
    } else if delta > 0 {
        SeekDecision::Drive(MotionCommand::Up)
    } else {
        SeekDecision::Drive(MotionCommand::Down)
    }
}

/// Decides what a position reading calls for.
pub fn decide_move(target: u16, current: u16) -> (decision: SeekDecision)
    ensures
        decision == seek_decision(target as int, current as int),
{
    let delta: i32 = target as i32 - current as i32;
    if delta == 0 {
        SeekDecision::Arrived
    } else if -(SEEK_TOLERANCE as i32) <= delta && delta <= SEEK_TOLERANCE as i32 {
        SeekDecision::Settle
    } else if delta > 0 {
        SeekDecision::Drive(MotionCommand::Up)
    } else {
        SeekDecision::Drive(MotionCommand::Down)
    }
}

/// Where a seek stands.
#[derive(Clone, Debug, PartialEq, Eq)]
pub enum SeekState {
    /// Still under way.
    Seeking,
    /// The desk is within tolerance of the target.
    Reached,
    /// The seek was given up with this error.
    Failed(BtError),
}

/// What the controller asks its caller to do next.
#[derive(Clone, Copy, Debug, PartialEq, Eq, Structural)]
pub enum SeekAction {
    /// Wait this many milliseconds, read the position, report
    /// `PositionRead`.
    Poll { after_ms: u64 },
    /// Write this command to the control characteristic, report `CommandSent`.
    Send(MotionCommand),
    /// Nothing: the seek is over.
    Halt,
}

/// What the caller reports back.
#[derive(Debug, PartialEq, Eq)]
pub enum SeekEvent {
    /// The outcome of reading the position.
    PositionRead(Result<PositionSpeed, BtError>),
    /// The outcome of writing a command.
    CommandSent(Result<(), BtError>),
}

/// The mathematical model of a seek.
pub ghost struct SeekModel {
    pub target: int,
    pub state: SeekState,
    pub pending: SeekAction,
}

/// The request for the next reading: it is always made one polling
/// interval after what came before.
pub open spec fn next_poll() -> SeekAction {
    SeekAction::Poll { after_ms: POLL_INTERVAL_MS }
}

/// The model of a seek for `target` before any event.
pub open spec fn seek_start(target: int) -> SeekModel {
    if height_in_range(target) {
        SeekModel { target, state: SeekState::Seeking, pending: next_poll() }
    } else {
        SeekModel {
            target,
            state: SeekState::Failed(BtError::PositionNotInRange),
            pending: SeekAction::Halt,
        }
    }
}

/// The model after `event` was reported. An event that does not answer the
/// pending action changes nothing.
pub open spec fn seek_after(m: SeekModel, event: SeekEvent) -> SeekModel {
    match (m.pending, event) {
        (SeekAction::Poll { .. }, SeekEvent::PositionRead(Ok(sample))) => match seek_decision(
            m.target,
            sample.position as int,
        ) {
            SeekDecision::Arrived => SeekModel {
                state: SeekState::Reached,
                pending: SeekAction::Halt,
                ..m
            },
            SeekDecision::Settle => SeekModel {
                pending: SeekAction::Send(MotionCommand::Stop),
                ..m
            },
            SeekDecision::Drive(cmd) => SeekModel { pending: SeekAction::Send(cmd), ..m },
        },
        (SeekAction::Poll { .. }, SeekEvent::PositionRead(Err(e))) => SeekModel {
            state: SeekState::Failed(e),
            pending: SeekAction::Halt,
            ..m
        },
        (SeekAction::Send(cmd), SeekEvent::CommandSent(Ok(_))) => if cmd == MotionCommand::Stop {
            SeekModel { state: SeekState::Reached, pending: SeekAction::Halt, ..m }
        } else {
            SeekModel { pending: next_poll(), ..m }
        },
        (SeekAction::Send(_), SeekEvent::CommandSent(Err(e))) => SeekModel {
            state: SeekState::Failed(e),
            pending: SeekAction::Halt,
            ..m
        },
        _ => m,
    }
}

/// The model after a whole sequence of events, first to last.
pub open spec fn seek_after_all(m: SeekModel, events: Seq<SeekEvent>) -> SeekModel
    decreases events.len(),
{
    if events.len() == 0 {
        m
    } else {
        seek_after_all(seek_after(m, events[0]), events.drop_first())
    }
}

/// What a seek can be in: a model whose pending action fits its state.
pub open spec fn seek_consistent(m: SeekModel) -> bool {
    (m.state is Seeking) <==> !(m.pending is Halt)
}

enum Phase {
    Polling,
    Sending(MotionCommand),
    Reached,
    Failed(BtError),
}

/// A seek for one target height.
pub struct Seek {
    target: u16,
    phase: Phase,
}

impl View for Seek {
    type V = SeekModel;

    closed spec fn view(&self) -> SeekModel {
        match self.phase {
            Phase::Polling => SeekModel {
                target: self.target as int,
                state: SeekState::Seeking,
                pending: next_poll(),
            },
            Phase::Sending(cmd) => SeekModel {
                target: self.target as int,
                state: SeekState::Seeking,
                pending: SeekAction::Send(cmd),
            },
            Phase::Reached => SeekModel {
                target: self.target as int,
                state: SeekState::Reached,
                pending: SeekAction::Halt,
            },
            Phase::Failed(e) => SeekModel {
                target: self.target as int,
                state: SeekState::Failed(e),
                pending: SeekAction::Halt,
            },
        }
    }
}

impl Seek {
    /// Begins a seek for `target`. A target outside the desk's range fails
    /// at once with `PositionNotInRange`, before anything is asked of the
    /// caller.
    pub fn start(target: u16) -> (seek: Seek)
        ensures
            seek@ == seek_start(target as int),
    {
        if is_valid_height(target) {
            Seek { target, phase: Phase::Polling }
        } else {
            Seek { target, phase: Phase::Failed(BtError::PositionNotInRange) }
        }
    }

    /// The height this seek aims for.
    pub fn target(&self) -> (target: u16)
        ensures
            target == self@.target,
    {
        self.target
    }

    /// What the caller is to do next.
    pub fn action(&self) -> (action: SeekAction)
        ensures
            action == self@.pending,
            seek_consistent(self@),
    {
        match &self.phase {
            Phase::Polling => SeekAction::Poll { after_ms: POLL_INTERVAL_MS },
            Phase::Sending(cmd) => SeekAction::Send(*cmd),
            Phase::Reached => SeekAction::Halt,
            Phase::Failed(_) => SeekAction::Halt,
        }
    }

    /// Whether the seek is over, one way or the other.
    pub fn is_finished(&self) -> (finished: bool)
        ensures
            finished == !(self@.state is Seeking),
    {
        match &self.phase {
            Phase::Polling => false,
            Phase::Sending(_) => false,
            Phase::Reached => true,
            Phase::Failed(_) => true,
        }
    }

    /// Whether the desk was brought within tolerance of the target.
    pub fn is_reached(&self) -> (reached: bool)
        ensures
            reached == (self@.state is Reached),
    {
        match &self.phase {
            Phase::Reached => true,
            _ => false,
        }
    }

    /// Takes in what the caller reports and moves on.
    pub fn handle(self, event: SeekEvent) -> (next: Seek)
        ensures
            next@ == seek_after(self@, event),
    {
        let Seek { target, phase } = self;
        match (phase, event) {
            (Phase::Polling, SeekEvent::PositionRead(Ok(sample))) => {
                match decide_move(target, sample.position) {
                    SeekDecision::Arrived => Seek { target, phase: Phase::Reached },
                    SeekDecision::Settle => Seek {
                        target,
                        phase: Phase::Sending(MotionCommand::Stop),
                    },
                    SeekDecision::Drive(cmd) => Seek { target, phase: Phase::Sending(cmd) },
                }
            },
            (Phase::Polling, SeekEvent::PositionRead(Err(e))) => Seek {
                target,
                phase: Phase::Failed(e),
            },
            (Phase::Sending(cmd), SeekEvent::CommandSent(Ok(_))) => {
                match cmd {
                    MotionCommand::Stop => Seek { target, phase: Phase::Reached },
                    _ => Seek { target, phase: Phase::Polling },
                }
            },
            (Phase::Sending(_), SeekEvent::CommandSent(Err(e))) => Seek {
                target,
                phase: Phase::Failed(e),
            },
            (phase, _) => Seek { target, phase },
        }
    }

    /// Ends the seek and hands out how it went: nothing while it is still
    /// under way, else success or the error it failed with.
    pub fn finish(self) -> (outcome: Option<Result<(), BtError>>)
        ensures
            outcome == seek_outcome(self@),
    {
        match self.phase {
            Phase::Polling => None,
            Phase::Sending(_) => None,
            Phase::Reached => Some(Ok(())),
            Phase::Failed(e) => Some(Err(e)),
        }
    }
}

/// How a seek in state `m` has gone.
pub open spec fn seek_outcome(m: SeekModel) -> Option<Result<(), BtError>> {
    match m.state {
        SeekState::Seeking => None,
        SeekState::Reached => Some(Ok(())),
        SeekState::Failed(e) => Some(Err(e)),
    }
}

} // verus!

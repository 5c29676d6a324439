//! The decisions of the event loop: what wakes it, in which order the
//! transport is served, which failures it rides out and how it ends.
//!
//! The loop itself waits and does the reading, the dispatching and the
//! flushing. After each of them it asks here how to go on.

use crate::wl_cskk_context::ImError;
use vstd::prelude::*;

verus! {

/// What the loop waits on.
#[derive(Clone, Copy, Debug, PartialEq, Eq, Structural)]
pub enum Source {
    /// The connection to the compositor.
    Transport,
    /// The descriptor on which signals arrive.
    Signal,
}

/// What a source is watched for.
#[derive(Clone, Copy, Debug, PartialEq, Eq, Structural)]
pub struct Interest {
    pub readable: bool,
    pub writable: bool,
}

impl Source {
    /// The token a source is registered under.
    pub open spec fn token_of(self) -> usize {
        match self {
            Source::Transport => 0,
            Source::Signal => 1,
        }
    }

    /// The source a token stands for, if any.
    pub open spec fn of_token(token: usize) -> Option<Source> {
        if token == 0 {
            Some(Source::Transport)
        } else if token == 1 {
            Some(Source::Signal)
        } else {
            None
        }
    }

    /// What a source is watched for: the transport for reading and writing,
    /// the signals for reading.
    pub open spec fn watched_for(self) -> Interest {
        match self {
            Source::Transport => Interest { readable: true, writable: true },
            Source::Signal => Interest { readable: true, writable: false },
        }
    }

    pub fn token(self) -> (token: usize)
        ensures
            token == self.token_of(),
            Source::of_token(token) == Some(self),
    {
        match self {
            Source::Transport => 0,
            Source::Signal => 1,
        }
    }

    pub fn from_token(token: usize) -> (source: Option<Source>)
        ensures
            source == Source::of_token(token),
    {
        if token == 0 {
            Some(Source::Transport)
        } else if token == 1 {
            Some(Source::Signal)
        } else {
            None
        }
    }

    pub fn interest(self) -> (interest: Interest)
        ensures
            interest == self.watched_for(),
    {
        match self {
            Source::Transport => Interest { readable: true, writable: true },
            Source::Signal => Interest { readable: true, writable: false },
        }
    }
}

/// The signals that end the loop.
#[derive(Clone, Copy, Debug, PartialEq, Eq, Structural)]
pub enum Signal {
    Interrupt,
    Terminate,
}

impl Signal {
    /// The signal a number stands for: 2 is the interrupt, 15 the
    /// termination. No other signal is watched.
    pub open spec fn of_number(number: i32) -> Option<Signal> {
        if number == 2 {
            Some(Signal::Interrupt)
        } else if number == 15 {
            Some(Signal::Terminate)
        } else {
            None
        }
    }

    /// The number of a signal.
    pub open spec fn number_of(self) -> i32 {
        match self {
            Signal::Interrupt => 2,
            Signal::Terminate => 15,
        }
    }

    pub fn from_number(number: i32) -> (signal: Option<Signal>)
        ensures
            signal == Signal::of_number(number),
    {
        if number == 2 {
            Some(Signal::Interrupt)
        } else if number == 15 {
            Some(Signal::Terminate)
        } else {
            None
        }
    }

    pub fn number(self) -> (number: i32)
        ensures
            number == self.number_of(),
            Signal::of_number(number) == Some(self),
    {
        match self {
            Signal::Interrupt => 2,
            Signal::Terminate => 15,
        }
    }
}

/// What the loop is doing.
#[derive(Clone, Copy, Debug, PartialEq, Eq, Structural)]
pub enum Phase {
    /// Waiting for a source to become ready, without timeout.
    Wait,
    /// Reading from the transport without blocking.
    Read,
    /// Dispatching the messages that were read to the bridge.
    Dispatch,
    /// Flushing what the bridge sent.
    Flush,
}

/// Why an operation did not succeed.
#[derive(Clone, Copy, Debug, PartialEq, Eq, Structural)]
pub enum IoFailure {
    /// It would have had to block.
    WouldBlock,
    /// A signal interrupted it.
    Interrupted,
    /// Anything else.
    Other,
}

/// How the loop ended.
#[derive(Clone, Copy, Debug, PartialEq, Eq, Structural)]
pub enum ExitOutcome {
    /// A signal asked for it: a shutdown in good order.
    Signalled(Signal),
    /// The compositor took the input-method capability away.
    Revoked,
    /// An operation of this phase failed for good.
    Failed(Phase),
}

/// How the loop goes on after an operation.
#[derive(Clone, Copy, Debug, PartialEq, Eq, Structural)]
pub enum Step {
    /// On to the phase that follows.
    Proceed,
    /// The same phase once more.
    Retry,
    /// The loop ends.
    Exit(ExitOutcome),
}

impl Phase {
    /// The phase that follows: a ready transport is read, then dispatched,
    /// then flushed, and then the loop waits again.
    pub open spec fn following(self) -> Phase {
        match self {
            Phase::Wait => Phase::Read,
            Phase::Read => Phase::Dispatch,
            Phase::Dispatch => Phase::Flush,
            Phase::Flush => Phase::Wait,
        }
    }

    /// How the loop goes on after the operation of a phase.
    ///
    /// Success leads on. An interrupted wait is waited again. A read or a
    /// flush that would block is left for the next wake, so it leads on too.
    /// Every other failure ends the loop.
    pub open spec fn step_after(self, failure: Option<IoFailure>) -> Step {
        match failure {
            None => Step::Proceed,
            Some(IoFailure::Interrupted) if self == Phase::Wait => Step::Retry,
            Some(IoFailure::WouldBlock) if self == Phase::Read || self == Phase::Flush => {
                Step::Proceed
            },
            Some(_) => Step::Exit(ExitOutcome::Failed(self)),
        }
    }

    pub fn next(self) -> (phase: Phase)
        ensures
            phase == self.following(),
    {
        match self {
            Phase::Wait => Phase::Read,
            Phase::Read => Phase::Dispatch,
            Phase::Dispatch => Phase::Flush,
            Phase::Flush => Phase::Wait,
        }
    }

    pub fn after(self, failure: Option<IoFailure>) -> (step: Step)
        ensures
            step == self.step_after(failure),
    {
        match failure {
            None => Step::Proceed,
            Some(IoFailure::Interrupted) => match self {
                Phase::Wait => Step::Retry,
                _ => Step::Exit(ExitOutcome::Failed(self)),
            },
            Some(IoFailure::WouldBlock) => match self {
                Phase::Read => Step::Proceed,
                Phase::Flush => Step::Proceed,
                _ => Step::Exit(ExitOutcome::Failed(self)),
            },
            Some(IoFailure::Other) => Step::Exit(ExitOutcome::Failed(self)),
        }
    }
}

/// How the loop goes on after a dispatch in which the bridge met
/// `revocation`, and which itself ended with `failure`: a revocation ends the
/// loop whatever else happened, and so does any failure.
pub open spec fn step_after_dispatch(failure: Option<IoFailure>, revocation: Option<ImError>) -> Step {
    if revocation.is_some() {
        Step::Exit(ExitOutcome::Revoked)
    } else {
        Phase::Dispatch.step_after(failure)
    }
}

pub fn dispatched(failure: Option<IoFailure>, revocation: Option<ImError>) -> (step: Step)
    ensures
        step == step_after_dispatch(failure, revocation),
{
    match revocation {
        Some(_) => Step::Exit(ExitOutcome::Revoked),
        None => Phase::Dispatch.after(failure),
    }
}

/// A watched signal ends the loop, in good order.
pub fn signalled(signal: Signal) -> (step: Step)
    ensures
        step == Step::Exit(ExitOutcome::Signalled(signal)),
{
    Step::Exit(ExitOutcome::Signalled(signal))
}

impl ExitOutcome {
    /// Whether the loop ended because it was asked to, and not because
    /// something went wrong.
    pub open spec fn graceful(self) -> bool {
        self is Signalled
    }

    /// What the outcome has to say for itself. A failed operation has
    /// nothing to add to the error of the transport.
    pub open spec fn message(self) -> Option<Seq<char>> {
        match self {
            ExitOutcome::Signalled(Signal::Interrupt) => Some("SIGINT received"@),
            ExitOutcome::Signalled(Signal::Terminate) => Some("SIGTERM received"@),
            ExitOutcome::Revoked => Some("Unavailable"@),
            ExitOutcome::Failed(_) => None,
        }
    }

    pub fn is_graceful(self) -> (graceful: bool)
        ensures
            graceful == self.graceful(),
    {
        match self {
            ExitOutcome::Signalled(_) => true,
            _ => false,
        }
    }

    pub fn diagnostic(self) -> (text: Option<String>)
        ensures
            text.is_some() == self.message().is_some(),
            text.is_some() ==> text.unwrap()@ == self.message().unwrap(),
    {
        match self {
            ExitOutcome::Signalled(Signal::Interrupt) => Some("SIGINT received".to_owned()),
            ExitOutcome::Signalled(Signal::Terminate) => Some("SIGTERM received".to_owned()),
            ExitOutcome::Revoked => Some("Unavailable".to_owned()),
            ExitOutcome::Failed(_) => None,
        }
    }
}

} // verus!

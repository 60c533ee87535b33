//! Stream commands and the streaming state they move a streamer through.
//!
//! A streamer is stopped, streams until told to stop, or streams a bounded
//! number of samples. The state records what was last commanded: the library
//! does not observe the radio finishing a bounded stream or a burst, so a
//! stream stays recorded until a stop command ends it.

use vstd::prelude::*;

use crate::error::Error;
use crate::time::TimeSpec;

verus! {

/// How a stop command ends a stream.
#[derive(Debug, Clone, Copy, PartialEq, Eq, Structural)]
pub enum StopMode {
    /// Stop at once, within a burst too.
    Now,
    /// Let the burst under way finish, then stop.
    AfterBurst,
}

/// A command that starts or stops streaming.
///
/// A start command may carry the instant at which streaming is to begin;
/// without one it begins at once. The instant and the stop mode are for the
/// radio: they do not change which state the command leads to.
#[derive(Debug, Clone, Copy, PartialEq, Eq, Structural)]
pub enum StreamCommand {
    /// Stream until a stop command.
    StartContinuous { start: Option<TimeSpec> },
    /// Stream `samples` samples per channel, then end.
    StartBounded { samples: u64, start: Option<TimeSpec> },
    /// End the stream.
    Stop { mode: StopMode },
}

/// What a streamer was last told to do.
#[derive(Debug, Clone, Copy, PartialEq, Eq, Structural)]
pub enum StreamState {
    /// No stream is under way.
    Stopped,
    /// Streaming until a stop command.
    Continuous,
    /// Streaming a stream of `samples` samples per channel.
    Bounded { samples: u64 },
}

impl StreamState {
    /// A stream is under way.
    pub open spec fn is_streaming(self) -> bool {
        self != StreamState::Stopped
    }

    /// The state that `command` leads to from this one, or why it is refused.
    ///
    /// - A bounded start for zero samples is refused with `EmptyStream`,
    ///   whatever the state.
    /// - Any other start is accepted when stopped and refused with
    ///   `AlreadyStreaming` while a stream is under way.
    /// - A stop is always accepted and leads to `Stopped`.
    pub open spec fn after(self, command: StreamCommand) -> Result<StreamState, Error> {
        match command {
            StreamCommand::Stop { .. } => Ok(StreamState::Stopped),
            StreamCommand::StartBounded { samples, .. } => if samples == 0 {
                Err(Error::EmptyStream)
            } else if self.is_streaming() {
                Err(Error::AlreadyStreaming)
            } else {
                Ok(StreamState::Bounded { samples })
            },
            StreamCommand::StartContinuous { .. } => if self.is_streaming() {
                Err(Error::AlreadyStreaming)
            } else {
                Ok(StreamState::Continuous)
            },
        }
    }

    /// Computes the state that `command` leads to, or the reason for refusing it.
    pub fn apply(self, command: &StreamCommand) -> (next: Result<StreamState, Error>)
        ensures
            next == self.after(*command),
    {
        let streaming = match self {
            StreamState::Stopped => false,
            _ => true,
        };
        match command {
            StreamCommand::Stop { .. } => Ok(StreamState::Stopped),
            StreamCommand::StartBounded { samples, .. } => {
                if *samples == 0 {
                    Err(Error::EmptyStream)
                } else if streaming {
                    Err(Error::AlreadyStreaming)
                } else {
                    Ok(StreamState::Bounded { samples: *samples })
                }
            },
            StreamCommand::StartContinuous { .. } => {
                if streaming {
                    Err(Error::AlreadyStreaming)
                } else {
                    Ok(StreamState::Continuous)
                }
            },
        }
    }
}

/// A stop command is accepted in every state and leaves the streamer stopped,
/// so stopping twice is the same as stopping once.
pub proof fn stop_always_stops(state: StreamState, mode: StopMode)
    ensures
        (state.after(StreamCommand::Stop { mode }) == Ok::<StreamState, Error>(StreamState::Stopped)),
{
}

/// An accepted start command leaves a stream under way, and a second start
/// is then refused until a stop command has been given.
pub proof fn start_needs_stop(state: StreamState, first: StreamCommand, second: StreamCommand)
    requires
        !(first is Stop),
        !(second is Stop),
        state.after(first) is Ok,
    ensures
        !state.is_streaming(),
        state.after(first)->Ok_0.is_streaming(),
        state.after(first)->Ok_0.after(second) is Err,
{
}

} // verus!

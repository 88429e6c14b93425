//! Waiting on the audio thread, but never forever.
//!
//! `Clear` and `Seek` return when the audio callback answers, and with a dead
//! device it never does. A plain timeout would be wrong: a dead device and a
//! source stalled on the network look the same from here, and cutting the second
//! one short would break slow playback to mend a freeze. So a wait asks about the
//! device every [`AUDIO_THREAD_POLL`](crate::AUDIO_THREAD_POLL), gives up at once
//! when it really went away, and only past
//! [`AUDIO_THREAD_CEILING`](crate::AUDIO_THREAD_CEILING), with nothing
//! identifiably wrong and still no answer, declares it lost.
use vstd::prelude::*;

use crate::sink::Command;

verus! {

/// A wait for the answer to a call.
#[derive(Clone, Copy, Debug, PartialEq, Eq, Structural)]
pub struct Wait {
    /// The sink that the call was made on. Every check is about this one: a wait
    /// that asked about a sink swapped in meanwhile would find it healthy, sit
    /// out the ceiling, and then declare the live sink lost.
    pub sink: u64,
    /// When the wait began.
    pub started: u128,
}

/// A call that waits on the audio thread, and the wait for its answer.
#[derive(Clone, Copy, Debug, PartialEq, Eq, Structural)]
pub struct Waiting {
    pub command: Command,
    pub wait: Wait,
}

/// What happens during a wait.
#[derive(Debug)]
pub enum WaitEvent {
    /// The call returned.
    Answered,
    /// The thread that makes the call ended without an answer.
    WorkerGone,
    /// Another poll interval went by.
    PollElapsed,
    /// The name of the default output was read, to be compared with the name that
    /// was asked about.
    DefaultOutput { opened: String, current: Option<String> },
}

/// What to do next during a wait.
#[derive(Debug)]
pub enum WaitStep {
    /// The call returned; the wait is over.
    Finished,
    /// There is nothing to wait for any more.
    GaveUp,
    /// Wait for one more poll interval.
    KeepWaiting,
    /// Read the name of the default output, for comparison with this one.
    ReadDefault { opened: String },
}

/// The kind of a [`WaitStep`].
pub enum Verdict {
    Finished,
    GaveUp,
    KeepWaiting,
    ReadDefault,
}

impl WaitStep {
    /// The kind of this step.
    pub open spec fn verdict(self) -> Verdict {
        match self {
            WaitStep::Finished => Verdict::Finished,
            WaitStep::GaveUp => Verdict::GaveUp,
            WaitStep::KeepWaiting => Verdict::KeepWaiting,
            WaitStep::ReadDefault { .. } => Verdict::ReadDefault,
        }
    }
}

/// What the end of one poll interval found out about the device.
pub enum PollFinding {
    /// What was known without a read of the default output.
    Known,
    /// The default output was read and compared with the name of a device.
    Read { opened: Seq<char>, current: Option<Seq<char>> },
}

} // verus!

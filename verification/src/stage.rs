//! Putting a track onto the sink.
//!
//! A stage goes through fixed steps, and each hands over to the next: it begins,
//! it is admitted to the sink in use, the sink is cleared for it, its source is made
//! ready, the source is appended, and where the track is to play the sink is let
//! run. Clearing comes before every step that can fail on the track itself, so that
//! such a failure can never leave the previous track audible. What is handed over
//! cannot be made elsewhere, so no step can be left out.
use vstd::prelude::*;

use crate::error::PlayerError;
use crate::sink::{Call, Command};
use crate::stream::PreparedStream;
use crate::wait::{Wait, Waiting};

verus! {

/// Where the source of a track comes from.
#[derive(Debug)]
pub enum TrackSource {
    /// A file, which is opened and decoded once the sink is clear.
    File { path: String },
    /// A stream that is decoded already.
    Stream { prepared: PreparedStream },
}

/// A stage that began: its number, its source, and whether the track is to play once
/// it is staged.
pub struct PendingView {
    pub generation: u64,
    pub source: TrackSource,
    pub then_play: bool,
}

impl PendingView {
    /// The stage once it was admitted to the sink with number `sink`.
    pub open spec fn admitted(self, sink: u64) -> StageView {
        StageView {
            generation: self.generation,
            sink,
            source: self.source,
            then_play: self.then_play,
        }
    }
}

/// A stage that was admitted to a sink.
pub struct StageView {
    pub generation: u64,
    pub sink: u64,
    pub source: TrackSource,
    pub then_play: bool,
}

impl StageView {
    /// The stage once its source can be appended.
    pub open spec fn ready(self) -> ReadyView {
        ReadyView { generation: self.generation, sink: self.sink, then_play: self.then_play }
    }
}

/// A stage whose sink is being cleared: the last stage that was queued as the clear
/// was asked for, and when that was.
pub struct ClearingView {
    pub stage: StageView,
    pub through: u64,
    pub started: u128,
}

impl ClearingView {
    /// The clear.
    pub open spec fn command(self) -> Command {
        Command { sink: self.stage.sink, call: Call::Clear { through: self.through } }
    }

    /// The clear with the wait for its answer.
    pub open spec fn waiting(self) -> Waiting {
        Waiting {
            command: self.command(),
            wait: Wait { sink: self.stage.sink, started: self.started },
        }
    }
}

/// A stage whose source can be appended.
pub struct ReadyView {
    pub generation: u64,
    pub sink: u64,
    pub then_play: bool,
}

/// A stage whose file is to be opened and decoded.
pub struct FileStageView {
    pub path: String,
    pub ready: ReadyView,
}

/// A stage that began and was not admitted yet.
#[derive(Debug)]
pub struct PendingStage {
    pub(crate) generation: u64,
    pub(crate) source: TrackSource,
    pub(crate) then_play: bool,
}

impl View for PendingStage {
    type V = PendingView;

    open(crate) spec fn view(&self) -> PendingView {
        PendingView {
            generation: self.generation,
            source: self.source,
            then_play: self.then_play,
        }
    }
}

/// A stage that was admitted to the sink that it found alive.
#[derive(Debug)]
pub struct Stage {
    pub(crate) generation: u64,
    pub(crate) sink: u64,
    pub(crate) source: TrackSource,
    pub(crate) then_play: bool,
}

impl View for Stage {
    type V = StageView;

    open(crate) spec fn view(&self) -> StageView {
        StageView {
            generation: self.generation,
            sink: self.sink,
            source: self.source,
            then_play: self.then_play,
        }
    }
}

/// How a stage goes on after it began.
#[derive(Debug)]
pub enum StageStart {
    /// It was admitted to the sink in use.
    Begun { stage: Stage },
    /// It was refused.
    Refused { error: PlayerError },
    /// The default output is to be read first and compared with this name.
    ReadDefault { opened: String, pending: PendingStage },
}

/// A stage that has to wait for the sink to be cleared.
#[derive(Debug)]
pub struct Clearing {
    pub(crate) stage: Stage,
    pub(crate) through: u64,
    pub(crate) started: u128,
}

impl View for Clearing {
    type V = ClearingView;

    open(crate) spec fn view(&self) -> ClearingView {
        ClearingView { stage: self.stage@, through: self.through, started: self.started }
    }
}

impl Clearing {
    /// The call to make, and the wait for its answer.
    pub fn waiting(&self) -> (waiting: Waiting)
        ensures
            waiting == self@.waiting(),
    {
        Waiting {
            command: Command {
                sink: self.stage.sink,
                call: Call::Clear { through: self.through },
            },
            wait: Wait { sink: self.stage.sink, started: self.started },
        }
    }
}

/// A stage whose sink was cleared.
#[derive(Debug)]
pub struct Cleared {
    pub(crate) stage: Stage,
}

impl View for Cleared {
    type V = StageView;

    open(crate) spec fn view(&self) -> StageView {
        self.stage@
    }
}

/// A stage whose source can be appended.
#[derive(Debug)]
pub struct Ready {
    pub(crate) generation: u64,
    pub(crate) sink: u64,
    pub(crate) then_play: bool,
}

impl View for Ready {
    type V = ReadyView;

    open(crate) spec fn view(&self) -> ReadyView {
        ReadyView { generation: self.generation, sink: self.sink, then_play: self.then_play }
    }
}

/// A stage whose file is to be opened and decoded.
#[derive(Debug)]
pub struct FileStage {
    pub(crate) path: String,
    pub(crate) ready: Ready,
}

impl View for FileStage {
    type V = FileStageView;

    open(crate) spec fn view(&self) -> FileStageView {
        FileStageView { path: self.path, ready: self.ready@ }
    }
}

/// A stage whose source is on the sink.
#[derive(Debug)]
pub struct Staged {
    pub(crate) then_play: bool,
}

impl Staged {
    /// Whether the track is to play now.
    pub open(crate) spec fn plays(self) -> bool {
        self.then_play
    }
}

/// What follows once the sink is clear.
#[derive(Debug)]
pub enum NextStep {
    /// Open and decode the file.
    DecodeFile { file: FileStage },
    /// Append the source.
    Append { ready: Ready },
}

/// What became of a file that was to be opened and decoded.
#[derive(Debug)]
pub enum FileOutcome {
    Decoded,
    OpenFailed { cause: String },
    DecodeFailed { cause: String },
}

impl Cleared {
    /// Goes on to the file, where the track comes from one.
    pub fn next_step(self) -> (next: NextStep)
        ensures
            match self@.source {
                TrackSource::File { path } => {
                    &&& next matches NextStep::DecodeFile { file }
                    &&& file@ == (FileStageView { path, ready: self@.ready() })
                },
                TrackSource::Stream { .. } => {
                    &&& next matches NextStep::Append { ready }
                    &&& ready@ == self@.ready()
                },
            },
    {
        let ready = Ready {
            generation: self.stage.generation,
            sink: self.stage.sink,
            then_play: self.stage.then_play,
        };
        match self.stage.source {
            TrackSource::File { path } => NextStep::DecodeFile { file: FileStage { path, ready } },
            TrackSource::Stream { .. } => NextStep::Append { ready },
        }
    }
}

impl FileStage {
    /// The path of the file.
    pub fn path(&self) -> (path: &str)
        ensures
            path@ == self@.path@,
    {
        self.path.as_str()
    }

    /// Goes on once the file was decoded, or could not be.
    pub fn decoded(self, outcome: FileOutcome) -> (ready: Result<Ready, PlayerError>)
        ensures
            match outcome {
                FileOutcome::Decoded => ready matches Ok(r) && r@ == self@.ready,
                FileOutcome::OpenFailed { cause } => ready == Err::<Ready, PlayerError>(
                    PlayerError::FileOpen { path: self@.path, cause },
                ),
                FileOutcome::DecodeFailed { cause } => ready == Err::<Ready, PlayerError>(
                    PlayerError::FileDecode { path: self@.path, cause },
                ),
            },
    {
        match outcome {
            FileOutcome::Decoded => Ok(self.ready),
            FileOutcome::OpenFailed { cause } => {
                Err(PlayerError::FileOpen { path: self.path, cause })
            },
            FileOutcome::DecodeFailed { cause } => {
                Err(PlayerError::FileDecode { path: self.path, cause })
            },
        }
    }
}

} // verus!

//! The control core of an internet-radio player's audio output.
//!
//! [`LocalPlayer`] holds every decision about the output and makes no call on a
//! device itself: it hands out [`Command`]s and asks for readings, and its caller
//! carries them out and reports back. So the whole of it can be verified, and the
//! thread that owns the device stays outside.
//!
//! ## Losing the output device
//!
//! Losing the device in the middle of a track takes two shapes, and only one of
//! them is an error anybody reports. The audio backend notices the device being
//! *removed*. It cannot notice the far more common case: the system moving its
//! *default output* somewhere else (headphones unplugged, earbuds back in their
//! case), which leaves the stream happily bound to a device nobody is listening
//! to. So a sink also remembers which device it was opened on, and
//! [`LocalPlayer::device_lost`] compares that with the current default.
//!
//! Either way no audio callback runs again, and that matters far beyond silence:
//! clearing a sink and seeking in it *wait on that callback*. So a call that would
//! wait on the audio thread is made only where nothing says that the device is gone,
//! and only once a read of the default output that is due has been made. The wait
//! itself is bounded, since a detector that misses one day would freeze the
//! application again: an audio thread that does not answer *is* the last detector.
//!
//! ## The parts
//!
//! * [`player`]: the player and its calls;
//! * [`model`]: its state, and what each call makes of it;
//! * [`open`], [`sink`], [`device`], [`reopen`], [`wait`], [`stage`], [`stream`],
//!   [`volume`], [`error`], [`limits`]: what the calls are made of;
//! * [`calls`] and [`outcomes`]: what each call does, and what calls come to together;
//! * [`history`] and [`staging`]: what holds over all that can happen.

pub mod calls;
pub mod device;
pub mod error;
pub mod history;
pub mod limits;
pub mod model;
pub mod open;
pub mod outcomes;
pub mod player;
pub mod reopen;
pub mod sink;
pub mod stage;
pub mod staging;
pub mod stream;
pub mod volume;
pub mod wait;

pub use device::{Admission, DeviceProbe};
pub use error::PlayerError;
pub use limits::{
    AUDIO_THREAD_CEILING, AUDIO_THREAD_POLL, DEVICE_CHECK_INTERVAL, DEVICE_OPEN_TIMEOUT,
    DEVICE_REOPEN_ATTEMPTS, DEVICE_REOPEN_RETRY_AFTER,
};
pub use open::{open_sink, Awaited, OpenReply, Opened, Picked};
pub use player::LocalPlayer;
pub use reopen::{reopen_due, Recovery, Reopen};
pub use sink::{Call, Command, StreamFault};
pub use stage::{
    Cleared, Clearing, FileOutcome, FileStage, NextStep, PendingStage, Ready, Stage, StageStart,
    Staged, TrackSource,
};
pub use stream::{DecoderPlan, PreparedStream};
pub use volume::{volume_gain, FULL_GAIN};
pub use wait::{Wait, WaitEvent, WaitStep, Waiting};

//! Opening the default output device.
//!
//! The device is picked first, then a thread that will own it is started, then
//! that thread is given [`DEVICE_OPEN_TIMEOUT`](crate::DEVICE_OPEN_TIMEOUT) to
//! hand back a control handle. Each step can fail, each in its own way.
use vstd::prelude::*;

use crate::error::PlayerError;

verus! {

/// A device was picked; a thread is to be started that opens it.
pub struct Picked {
    /// The name of the device, where it could be read.
    pub device_name: Option<String>,
}

/// The thread was started; it is to hand back a control handle.
pub struct Awaited {
    pub device_name: Option<String>,
}

/// The device is open and its control handle is at hand.
pub struct Opened {
    pub device_name: Option<String>,
}

/// What came back from the thread that opens the device.
#[derive(Debug)]
pub enum OpenReply {
    /// The control handle.
    Connected,
    /// The device would not open.
    Refused { cause: String },
    /// Nothing, by the deadline or because the thread ended.
    Silence { cause: String },
}

/// Takes the default output device: `None` where the system has none, else its
/// name as far as it could be read.
///
/// Only the default device is ever tried: where it cannot be opened the user gets
/// an error, never audio from some other device.
pub fn open_sink(default_device: Option<Option<String>>) -> (picked: Result<Picked, PlayerError>)
    ensures
        match default_device {
            Some(device_name) => picked == Ok::<Picked, PlayerError>(Picked { device_name }),
            None => picked == Err::<Picked, PlayerError>(PlayerError::NoOutputDevice),
        },
{
    match default_device {
        Some(device_name) => Ok(Picked { device_name }),
        None => Err(PlayerError::NoOutputDevice),
    }
}

impl Picked {
    /// Goes on once the thread was started, or could not be.
    pub fn spawned(self, outcome: Result<(), String>) -> (awaited: Result<Awaited, PlayerError>)
        ensures
            match outcome {
                Ok(_) => awaited == Ok::<Awaited, PlayerError>(
                    Awaited { device_name: self.device_name },
                ),
                Err(cause) => awaited == Err::<Awaited, PlayerError>(
                    PlayerError::AudioThreadSpawn { cause },
                ),
            },
    {
        match outcome {
            Ok(_) => Ok(Awaited { device_name: self.device_name }),
            Err(cause) => Err(PlayerError::AudioThreadSpawn { cause }),
        }
    }
}

impl Awaited {
    /// Ends with what the thread handed back.
    pub fn replied(self, reply: OpenReply) -> (opened: Result<Opened, PlayerError>)
        ensures
            match reply {
                OpenReply::Connected => opened == Ok::<Opened, PlayerError>(
                    Opened { device_name: self.device_name },
                ),
                OpenReply::Refused { cause } => opened == Err::<Opened, PlayerError>(
                    PlayerError::DeviceOpen { cause },
                ),
                OpenReply::Silence { cause } => opened == Err::<Opened, PlayerError>(
                    PlayerError::AudioThreadSilent { cause },
                ),
            },
    {
        match reply {
            OpenReply::Connected => Ok(Opened { device_name: self.device_name }),
            OpenReply::Refused { cause } => Err(PlayerError::DeviceOpen { cause }),
            OpenReply::Silence { cause } => Err(PlayerError::AudioThreadSilent { cause }),
        }
    }
}

} // verus!

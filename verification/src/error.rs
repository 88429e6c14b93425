//! What can go wrong, and how it is put to the user.
use vstd::prelude::*;
use vstd::string::*;

verus! {

/// Why a call on the player failed. Where something outside the player failed
/// first, `cause` holds its own account of it.
#[derive(Debug)]
pub enum PlayerError {
    /// The system names no default output device.
    NoOutputDevice,
    /// The thread that is to own the device could not be started.
    AudioThreadSpawn { cause: String },
    /// The audio thread handed back no device in time, or ended before it did.
    AudioThreadSilent { cause: String },
    /// The default output device could not be opened.
    DeviceOpen { cause: String },
    /// The device of the sink is gone.
    Disconnected,
    /// The device was reopened while the track was being prepared.
    DeviceChanged,
    /// A later track was started while this one was being prepared.
    Superseded,
    /// The audio thread gave no answer.
    NotResponding,
    /// The audio file could not be opened.
    FileOpen { path: String, cause: String },
    /// The audio file could not be decoded.
    FileDecode { path: String, cause: String },
    /// The audio stream could not be decoded.
    StreamDecode { cause: String },
    /// The seek failed.
    Seek { cause: String },
}

impl PlayerError {
    /// The text of the error. The variants that repeat their cause in the text
    /// are those that report it as part of one sentence.
    pub open spec fn text(self) -> Seq<char> {
        match self {
            PlayerError::NoOutputDevice => "no audio output device available"@,
            PlayerError::AudioThreadSpawn { .. } => "spawning local audio output thread"@,
            PlayerError::AudioThreadSilent { .. } =>
                "local audio output thread did not open a device"@,
            PlayerError::DeviceOpen { cause } =>
                "opening default audio output device: "@ + cause@,
            PlayerError::Disconnected => "audio output device disconnected"@,
            PlayerError::DeviceChanged => "audio output device changed"@,
            PlayerError::Superseded => "superseded by a later track"@,
            PlayerError::NotResponding => "audio output device stopped responding"@,
            PlayerError::FileOpen { path, .. } => "opening audio file "@ + path@,
            PlayerError::FileDecode { path, .. } => "decoding audio file "@ + path@,
            PlayerError::StreamDecode { cause } => "decoding audio stream: "@ + cause@,
            PlayerError::Seek { cause } => "seeking local audio: "@ + cause@,
        }
    }

    /// The error below this one, where the text of this one does not already
    /// repeat it.
    pub open spec fn underlying(self) -> Option<Seq<char>> {
        match self {
            PlayerError::AudioThreadSpawn { cause } => Some(cause@),
            PlayerError::AudioThreadSilent { cause } => Some(cause@),
            PlayerError::FileOpen { cause, .. } => Some(cause@),
            PlayerError::FileDecode { cause, .. } => Some(cause@),
            _ => None,
        }
    }

    /// The text of the error, without the error below it.
    pub fn message(&self) -> (message: String)
        ensures
            message@ == self.text(),
    {
        match self {
            PlayerError::NoOutputDevice => "no audio output device available".to_owned(),
            PlayerError::AudioThreadSpawn { .. } => {
                "spawning local audio output thread".to_owned()
            },
            PlayerError::AudioThreadSilent { .. } => {
                "local audio output thread did not open a device".to_owned()
            },
            PlayerError::DeviceOpen { cause } => {
                "opening default audio output device: ".to_owned().concat(cause.as_str())
            },
            PlayerError::Disconnected => "audio output device disconnected".to_owned(),
            PlayerError::DeviceChanged => "audio output device changed".to_owned(),
            PlayerError::Superseded => "superseded by a later track".to_owned(),
            PlayerError::NotResponding => "audio output device stopped responding".to_owned(),
            PlayerError::FileOpen { path, .. } => {
                "opening audio file ".to_owned().concat(path.as_str())
            },
            PlayerError::FileDecode { path, .. } => {
                "decoding audio file ".to_owned().concat(path.as_str())
            },
            PlayerError::StreamDecode { cause } => {
                "decoding audio stream: ".to_owned().concat(cause.as_str())
            },
            PlayerError::Seek { cause } => {
                "seeking local audio: ".to_owned().concat(cause.as_str())
            },
        }
    }

    /// The error below this one, for a report of the whole chain.
    pub fn cause(&self) -> (cause: Option<&str>)
        ensures
            match cause {
                Some(text) => self.underlying() == Some(text@),
                None => self.underlying() is None,
            },
    {
        match self {
            PlayerError::AudioThreadSpawn { cause } => Some(cause.as_str()),
            PlayerError::AudioThreadSilent { cause } => Some(cause.as_str()),
            PlayerError::FileOpen { cause, .. } => Some(cause.as_str()),
            PlayerError::FileDecode { cause, .. } => Some(cause.as_str()),
            _ => None,
        }
    }
}

} // verus!

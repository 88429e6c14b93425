//! Decoding a stream.
use vstd::prelude::*;

use crate::error::PlayerError;

verus! {

/// How the decoder of a stream is to be built.
#[derive(Debug)]
pub struct DecoderPlan {
    /// Whether the decoder may seek in its reader. Without a known length it must
    /// not: a seek breaks on an endless stream.
    pub seekable: bool,
    /// The length of the stream in bytes, where it is known.
    pub byte_len: Option<u64>,
    /// The media type that format detection starts from, where there is one. A
    /// stream has no file name to go by.
    pub mime_type: Option<String>,
}

/// A stream whose decoder was built.
#[derive(Debug)]
pub struct PreparedStream {
    pub plan: DecoderPlan,
}

impl DecoderPlan {
    /// Goes on once the decoder was built, or could not be.
    pub fn built(self, outcome: Result<(), String>) -> (stream: Result<PreparedStream, PlayerError>)
        ensures
            match outcome {
                Ok(_) => stream == Ok::<PreparedStream, PlayerError>(PreparedStream { plan: self }),
                Err(cause) => stream == Err::<PreparedStream, PlayerError>(
                    PlayerError::StreamDecode { cause },
                ),
            },
    {
        match outcome {
            Ok(_) => Ok(PreparedStream { plan: self }),
            Err(cause) => Err(PlayerError::StreamDecode { cause }),
        }
    }
}

} // verus!

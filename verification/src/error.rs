//! What can go wrong with a track, and how it is told.

use vstd::prelude::*;

verus! {

/// Why a track could not be decoded.
#[derive(Clone, Copy, Debug, PartialEq, Eq, Structural)]
pub enum DecodeError {
    /// The file does not exist or cannot be read.
    NotFound,
    /// The file is not in a format the decoder understands.
    UnsupportedFormat,
    /// The bit stream turned out malformed while it was being decoded.
    Corrupt,
}

/// Why the audio device could not be used.
#[derive(Clone, Copy, Debug, PartialEq, Eq, Structural)]
pub enum SinkError {
    /// No device could be reached.
    DeviceUnavailable,
    /// The device refused the sample rate or channel count.
    FormatRejected,
}

/// A failure the engine recovered from and hands upward to be reported.
#[derive(Clone, Copy, Debug, PartialEq, Eq, Structural)]
pub enum EngineError {
    Decode(DecodeError),
    Sink(SinkError),
}

} // verus!

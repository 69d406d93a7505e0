//! The unit of audio that passes from the decoder to the output device.

use vstd::prelude::*;

verus! {

/// Samples per second of the output device.
pub const DEFAULT_RATE: u32 = 44100;

/// Channels of the output device: left and right.
pub const CHANNELS: u8 = 2;

/// One instant of sound: one signed 16-bit sample for each channel.
#[derive(Clone, Copy, Debug, PartialEq, Eq, Structural)]
pub struct SampleFrame {
    pub left: i16,
    pub right: i16,
}

/// The format an output device is opened with.
#[derive(Clone, Copy, Debug, PartialEq, Eq, Structural)]
pub struct SinkFormat {
    pub sample_rate: u32,
    pub channels: u8,
}

impl SinkFormat {
    /// The format of every session: stereo at `DEFAULT_RATE`.
    pub open spec fn standard_spec() -> SinkFormat {
        SinkFormat { sample_rate: DEFAULT_RATE, channels: CHANNELS }
    }

    /// The format of every session: stereo at `DEFAULT_RATE`.
    #[verifier::when_used_as_spec(standard_spec)]
    pub fn standard() -> (format: SinkFormat)
        ensures
            format == Self::standard_spec(),
    {
        SinkFormat { sample_rate: DEFAULT_RATE, channels: CHANNELS }
    }
}

} // verus!

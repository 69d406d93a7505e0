//! How a decoder's adapter reads what the decoding library tells it.
//!
//! A compressed file may begin with data that is no audio, such as a tag.
//! While a file is being opened, such data is skipped; a file that holds no
//! audio at all is not in a supported format. Once audio has been found,
//! malformed data means the stream is corrupt.

use crate::error::DecodeError;
use vstd::prelude::*;

verus! {

/// What one call of the decoding library gave.
#[derive(Clone, Copy, Debug, PartialEq, Eq, Structural)]
pub enum Attempt {
    /// A block of audio.
    Block,
    /// Data that could not be decoded.
    Malformed,
    /// The file could not be read further.
    ReadFailed,
    /// The file has come to its end.
    Exhausted,
}

/// What the adapter does about an attempt.
#[derive(Clone, Copy, Debug, PartialEq, Eq, Structural)]
pub enum Verdict {
    /// Hand out the frames of the block.
    Serve,
    /// Call the library again.
    Retry,
    /// The stream has ended.
    End,
    /// Give up with this error.
    Fail(DecodeError),
}

/// The verdict on an attempt. `opening` tells whether the file is still
/// being opened, that is, whether no audio has been found in it yet.
pub open spec fn verdict(opening: bool, attempt: Attempt) -> Verdict {
    match attempt {
        Attempt::Block => Verdict::Serve,
        Attempt::Malformed => if opening {
            Verdict::Retry
        } else {
            Verdict::Fail(DecodeError::Corrupt)
        },
        Attempt::ReadFailed => if opening {
            Verdict::Fail(DecodeError::NotFound)
        } else {
            Verdict::Fail(DecodeError::Corrupt)
        },
        Attempt::Exhausted => if opening {
            Verdict::Fail(DecodeError::UnsupportedFormat)
        } else {
            Verdict::End
        },
    }
}

/// Decides what to do about an attempt.
pub fn judge(opening: bool, attempt: Attempt) -> (decision: Verdict)
    ensures
        decision == verdict(opening, attempt),
{
    match attempt {
        Attempt::Block => Verdict::Serve,
        Attempt::Malformed => if opening {
            Verdict::Retry
        } else {
            Verdict::Fail(DecodeError::Corrupt)
        },
        Attempt::ReadFailed => if opening {
            Verdict::Fail(DecodeError::NotFound)
        } else {
            Verdict::Fail(DecodeError::Corrupt)
        },
        Attempt::Exhausted => if opening {
            Verdict::Fail(DecodeError::UnsupportedFormat)
        } else {
            Verdict::End
        },
    }
}

} // verus!

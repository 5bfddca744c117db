//! Why a bank was refused.

use vstd::prelude::*;

verus! {

/// The reasons for which a bank is not read or not written.
#[derive(PartialEq, Eq, Structural, Clone, Copy, Debug)]
pub enum WsbkError {
    /// The bytes end before a chunk, or before a record inside one.
    Io,
    /// A name is not valid UTF-8.
    InvalidUtf8,
    /// The container is not of the type `wsbk`.
    InvalidRiffType,
    /// A sample is neither mono nor stereo.
    InvalidSampleType,
    /// A sample has an unknown way of looping.
    InvalidLoopType,
    /// A preset is neither melodic nor a drum set.
    InvalidPresetType,
    /// A sample header holds fewer than 18 bytes.
    InvalidSampleHeaderLength,
    /// A region header holds fewer than 8 bytes.
    InvalidRegionHeaderLength,
    /// A preset header holds fewer than 5 bytes.
    InvalidPresetHeaderLength,
    /// A chunk would hold more than a 32-bit length can say.
    TooBig,
}

impl WsbkError {
    /// The message of the error.
    pub fn to_string(&self) -> (res: String)
        ensures
            res@ == self.message(),
    {
        let text: &str = match self {
            WsbkError::Io => "failed to fill whole buffer",
            WsbkError::InvalidUtf8 => "invalid utf-8 sequence",
            WsbkError::InvalidRiffType => "Invalid RIFF file type",
            WsbkError::InvalidSampleType => "Invalid sample type",
            WsbkError::InvalidLoopType => "Invalid loop type",
            WsbkError::InvalidPresetType => "Invalid preset type",
            WsbkError::InvalidSampleHeaderLength => "Invalid sample header(smhd) length",
            WsbkError::InvalidRegionHeaderLength => "Invalid region header(rgnh) length",
            WsbkError::InvalidPresetHeaderLength => "Invalid preset header(prsh) length",
            WsbkError::TooBig => "Data too big",
        };
        text.to_owned()
    }

    /// The message that goes with each reason.
    pub open spec fn message(&self) -> Seq<char> {
        match self {
            WsbkError::Io => "failed to fill whole buffer"@,
            WsbkError::InvalidUtf8 => "invalid utf-8 sequence"@,
            WsbkError::InvalidRiffType => "Invalid RIFF file type"@,
            WsbkError::InvalidSampleType => "Invalid sample type"@,
            WsbkError::InvalidLoopType => "Invalid loop type"@,
            WsbkError::InvalidPresetType => "Invalid preset type"@,
            WsbkError::InvalidSampleHeaderLength => "Invalid sample header(smhd) length"@,
            WsbkError::InvalidRegionHeaderLength => "Invalid region header(rgnh) length"@,
            WsbkError::InvalidPresetHeaderLength => "Invalid preset header(prsh) length"@,
            WsbkError::TooBig => "Data too big"@,
        }
    }
}

} // verus!

use vstd::prelude::*;

verus! {

/// Why a byte buffer could not be read as an image.
#[derive(Clone, Copy, Debug, PartialEq, Eq, Structural)]
pub enum SeiError {
    /// The pixel data region does not have the length that the geometry asks for:
    /// `(actual, expected)`, both in bytes.
    IncorrectLength(usize, usize),
    IncorrectMagicBytes,
    /// Reserved: no version is refused yet.
    InvalidVersion,
    InvalidDataOffset,
    UnsupportedBitDepth,
    UnsupportedTransparency,
    UnreadableFile,
    /// Rows without padding are not supported by this edition of the format.
    NoPadding,
}

/// The message that names an error.
pub open spec fn error_message(e: SeiError) -> Seq<char> {
    match e {
        SeiError::IncorrectLength(_, _) => "IncorrectLength"@,
        SeiError::IncorrectMagicBytes => "IncorrectMagicBytes"@,
        SeiError::InvalidVersion => "InvalidVersion"@,
        SeiError::InvalidDataOffset => "InvalidDataOffset"@,
        SeiError::UnsupportedBitDepth => "UnsupportedBitDepth"@,
        SeiError::UnsupportedTransparency => "UnsupportedTransparency"@,
        SeiError::UnreadableFile => "UnreadableFile"@,
        SeiError::NoPadding => "`Padding::NoPadding` settings option is not supported in this version."@,
    }
}

impl SeiError {
    /// A human-readable message for this error.
    pub fn message(&self) -> (r: &'static str)
        ensures
            r@ == error_message(*self),
    {
        match self {
            SeiError::IncorrectLength(_, _) => "IncorrectLength",
            SeiError::IncorrectMagicBytes => "IncorrectMagicBytes",
            SeiError::InvalidVersion => "InvalidVersion",
            SeiError::InvalidDataOffset => "InvalidDataOffset",
            SeiError::UnsupportedBitDepth => "UnsupportedBitDepth",
            SeiError::UnsupportedTransparency => "UnsupportedTransparency",
            SeiError::UnreadableFile => "UnreadableFile",
            SeiError::NoPadding => "`Padding::NoPadding` settings option is not supported in this version.",
        }
    }
}

} // verus!

//! The failures that the conversion stages report.

use vstd::prelude::*;

verus! {

/// Why a conversion stage refused its input.
#[derive(Debug, Clone, Copy, PartialEq, Eq, Structural)]
pub enum Error {
    /// A crop target with a zero width or height.
    InvalidTarget,
    /// A source too small to hold any window of the target's aspect ratio.
    SourceTooSmall,
    /// An image whose width and height (carried here) are not the panel's.
    WrongDimensions(usize, usize),
    /// A byte stream that does not start with the EPD magic bytes.
    BadMagic,
    /// An EPD stream with a version byte this library does not read.
    UnsupportedVersion,
    /// An EPD stream shorter than its header declares.
    Truncated,
}

impl Error {
    /// A short human-readable description of the failure.
    pub fn message(&self) -> (r: String)
        ensures
            r@ == match self {
                Error::InvalidTarget => "invalid crop target"@,
                Error::SourceTooSmall => "source image too small for the target"@,
                Error::WrongDimensions(_, _) => "wrong image dimensions"@,
                Error::BadMagic => "not an EPD stream"@,
                Error::UnsupportedVersion => "unsupported EPD version"@,
                Error::Truncated => "truncated EPD stream"@,
            },
    {
        match self {
            Error::InvalidTarget => String::from_str("invalid crop target"),
            Error::SourceTooSmall => String::from_str("source image too small for the target"),
            Error::WrongDimensions(_, _) => String::from_str("wrong image dimensions"),
            Error::BadMagic => String::from_str("not an EPD stream"),
            Error::UnsupportedVersion => String::from_str("unsupported EPD version"),
            Error::Truncated => String::from_str("truncated EPD stream"),
        }
    }
}

} // verus!

use vstd::prelude::*;

verus! {

/// Why a byte sequence is not a WAV file this library can read.
#[derive(Debug, Clone, Copy, PartialEq, Eq, Structural)]
pub enum FormatFault {
    /// Fewer bytes than the fixed 44-byte header.
    HeaderTooShort,
    /// The first four bytes are not `RIFF`.
    BadMagic,
}

/// Which step of opening or driving the output device failed.
#[derive(Debug, Clone, Copy, PartialEq, Eq, Structural)]
pub enum StreamFault {
    NoDevice,
    ConfigError,
    UnsupportedFormat,
    BuildFailed,
    PlayFailed,
    PauseFailed,
}

#[derive(Debug, PartialEq, Eq)]
pub enum AudioPlayerError {
    /// Reading the source file failed; holds the system's description.
    IoError(String),
    UnsupportedFileFormat,
    InvalidFileName,
    FormatError(FormatFault),
    StreamError(StreamFault),
    DirectoryAlreadyExists,
    NoFileSelected,
    FileAlreadyExists,
    FailedToSelectFile,
}

impl FormatFault {
    pub fn message(&self) -> (r: &'static str)
        ensures
            *self == FormatFault::HeaderTooShort ==> r@ == "File is too short to be a valid WAV"@,
            *self == FormatFault::BadMagic ==> r@ == "Invalid WAV header"@,
    {
        match self {
            FormatFault::HeaderTooShort => "File is too short to be a valid WAV",
            FormatFault::BadMagic => "Invalid WAV header",
        }
    }
}

impl StreamFault {
    pub fn message(&self) -> (r: &'static str)
        ensures
            *self == StreamFault::NoDevice ==> r@ == "No output device available"@,
            *self == StreamFault::ConfigError ==> r@ == "Error querying configs"@,
            *self == StreamFault::UnsupportedFormat ==> r@ == "Unsupported sample format"@,
            *self == StreamFault::BuildFailed ==> r@ == "Failed to build output stream"@,
            *self == StreamFault::PlayFailed ==> r@ == "Failed to play stream"@,
            *self == StreamFault::PauseFailed ==> r@ == "Failed to pause stream"@,
    {
        match self {
            StreamFault::NoDevice => "No output device available",
            StreamFault::ConfigError => "Error querying configs",
            StreamFault::UnsupportedFormat => "Unsupported sample format",
            StreamFault::BuildFailed => "Failed to build output stream",
            StreamFault::PlayFailed => "Failed to play stream",
            StreamFault::PauseFailed => "Failed to pause stream",
        }
    }
}

} // verus!

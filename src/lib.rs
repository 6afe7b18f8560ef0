//! Playback of uncompressed PCM audio from WAV files.
//!
//! `byte_parser` turns little-endian bytes into samples, `wav` checks the RIFF header and
//! decodes the payload, `stream` holds what the realtime output callback and its controller
//! share (the read-only samples and one atomic cursor), and `audio_player` is the transport
//! state machine that loads files and drives playback. Device and file I/O are handed in by
//! the caller as closures.

pub mod audio_player;
pub mod byte_parser;
pub mod controls;
pub mod error;
pub mod select_file;
pub mod stream;
pub mod wav;

pub use audio_player::{AudioPlayer, State};
pub use byte_parser::{to_type_little_endian, SupportedType};
pub use controls::{command_for, Command, Key};
pub use error::{AudioPlayerError, FormatFault, StreamFault};
pub use select_file::SelectFile;
pub use stream::{PlaybackSource, Progress, SampleKind, StreamHandler};
pub use wav::stream_from_wav_file;

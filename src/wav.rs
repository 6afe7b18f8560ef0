use vstd::prelude::*;
use vstd::slice::slice_subrange;

use crate::byte_parser::{decoded, to_type_little_endian};
use crate::error::{AudioPlayerError, FormatFault};

verus! {

/// Length of the fixed RIFF/WAVE header that precedes the PCM payload.
pub const WAV_HEADER_LEN: usize = 44;

/// The first four bytes spell `RIFF`.
pub open spec fn has_riff_magic(bytes: Seq<u8>) -> bool {
    &&& bytes.len() >= 4
    &&& bytes[0] == 0x52u8
    &&& bytes[1] == 0x49u8
    &&& bytes[2] == 0x46u8
    &&& bytes[3] == 0x46u8
}

/// What decoding `bytes` as a WAV file gives: the 16-bit samples after the header, or the
/// reason the header is refused.
pub open spec fn wav_samples(bytes: Seq<u8>) -> Result<Seq<i16>, FormatFault> {
    if bytes.len() < WAV_HEADER_LEN {
        Err(FormatFault::HeaderTooShort)
    } else if !has_riff_magic(bytes) {
        Err(FormatFault::BadMagic)
    } else {
        Ok(decoded::<i16>(bytes.subrange(WAV_HEADER_LEN as int, bytes.len() as int)))
    }
}

/// Decodes a WAV file: checks the header's length and `RIFF` magic, then reads the payload as
/// 16-bit little-endian samples. The rest of the header is not interpreted.
pub fn stream_from_wav_file(file_bytes: &[u8]) -> (r: Result<Vec<i16>, AudioPlayerError>)
    ensures
        match wav_samples(file_bytes@) {
            Ok(s) => r matches Ok(v) && v@ == s,
            Err(f) => r == Err::<Vec<i16>, AudioPlayerError>(AudioPlayerError::FormatError(f)),
        },
        file_bytes@.len() < WAV_HEADER_LEN ==> r is Err,
        !has_riff_magic(file_bytes@) ==> r is Err,
        r matches Ok(v) ==> v@.len() == (file_bytes@.len() - WAV_HEADER_LEN) / 2,
{
    if file_bytes.len() < WAV_HEADER_LEN {
        return Err(AudioPlayerError::FormatError(FormatFault::HeaderTooShort));
    }
    if !(file_bytes[0] == 0x52u8 && file_bytes[1] == 0x49u8 && file_bytes[2] == 0x46u8
        && file_bytes[3] == 0x46u8) {
        return Err(AudioPlayerError::FormatError(FormatFault::BadMagic));
    }
    let payload = slice_subrange(file_bytes, WAV_HEADER_LEN, file_bytes.len());
    let samples = to_type_little_endian::<i16>(payload);
    Ok(samples)
}

} // verus!

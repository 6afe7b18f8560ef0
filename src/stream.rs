use std::sync::atomic::{AtomicUsize, Ordering};
use std::sync::Arc;
use vstd::prelude::*;

use crate::error::{AudioPlayerError, StreamFault};

verus! {

/// Equilibrium value of signed 16-bit output.
pub const SILENCE_I16: i16 = 0;

/// Equilibrium value of unsigned 8-bit output.
pub const SILENCE_U8: u8 = 128;

/// The sample that frame `index` plays: the buffer's sample while the index is in bounds,
/// silence once the buffer is exhausted.
pub open spec fn frame_at(samples: Seq<i16>, index: int) -> i16 {
    if 0 <= index < samples.len() {
        samples[index]
    } else {
        SILENCE_I16
    }
}

/// A 16-bit sample as unsigned 8-bit output: its high byte, moved up by 128.
pub open spec fn u8_of(s: i16) -> u8 {
    (s as int / 256 + 128) as u8
}

/// Relies on dasp_sample::conv::i16::to_u8, which shifts the sample right by eight bits and
/// adds 128 to the signed byte that remains.
pub assume_specification[ dasp_sample::conv::i16::to_u8 ](s: i16) -> (r: u8)
    ensures
        r == u8_of(s),
;

/// The sample format a device asks for.
#[derive(Debug, Clone, Copy, PartialEq, Eq, Structural)]
pub enum SampleKind {
    U8,
    I16,
    F32,
    Other,
}

/// Accepts the sample formats that playback can produce and refuses the rest.
pub fn check_output_format(kind: SampleKind) -> (r: Result<SampleKind, AudioPlayerError>)
    ensures
        kind != SampleKind::Other ==> r == Ok::<SampleKind, AudioPlayerError>(kind),
        kind == SampleKind::Other ==> r == Err::<SampleKind, AudioPlayerError>(
            AudioPlayerError::StreamError(StreamFault::UnsupportedFormat),
        ),
{
    match kind {
        SampleKind::Other => Err(AudioPlayerError::StreamError(StreamFault::UnsupportedFormat)),
        _ => Ok(kind),
    }
}

/// The sample that frame `start + offset` plays; never reads out of bounds, whatever the
/// position.
pub fn frame_after(samples: &[i16], start: usize, offset: usize) -> (r: i16)
    ensures
        r == frame_at(samples@, start + offset),
{
    let len = samples.len();
    if start < len && offset < len - start {
        samples[start + offset]
    } else {
        SILENCE_I16
    }
}

/// Writes the frames from position `start` on into `out` as signed 16-bit samples.
pub fn render_i16(samples: &[i16], start: usize, out: &mut [i16])
    ensures
        final(out)@.len() == old(out)@.len(),
        forall|k: int|
            0 <= k < final(out)@.len() ==> #[trigger] final(out)@[k] == frame_at(
                samples@,
                start + k,
            ),
{
    let n = out.len();
    let mut k: usize = 0;
    while k < n
        invariant
            n == out@.len(),
            out@.len() == old(out)@.len(),
            k <= n,
            forall|j: int| 0 <= j < k ==> #[trigger] out@[j] == frame_at(samples@, start + j),
        decreases n - k,
    {
        out[k] = frame_after(samples, start, k);
        k = k + 1;
    }
}

/// Writes the frames from position `start` on into `out` as unsigned 8-bit samples.
pub fn render_u8(samples: &[i16], start: usize, out: &mut [u8])
    ensures
        final(out)@.len() == old(out)@.len(),
        forall|k: int|
            0 <= k < final(out)@.len() ==> #[trigger] final(out)@[k] == u8_of(
                frame_at(samples@, start + k),
            ),
{
    let n = out.len();
    let mut k: usize = 0;
    while k < n
        invariant
            n == out@.len(),
            out@.len() == old(out)@.len(),
            k <= n,
            forall|j: int|
                0 <= j < k ==> #[trigger] out@[j] == u8_of(frame_at(samples@, start + j)),
        decreases n - k,
    {
        out[k] = dasp_sample::conv::i16::to_u8(frame_after(samples, start, k));
        k = k + 1;
    }
}

/// Once the cursor has passed the end of the buffer, every later frame is silence, in both
/// output formats.
pub proof fn lemma_exhausted_is_silent(samples: Seq<i16>, position: int)
    requires
        position >= samples.len(),
    ensures
        frame_at(samples, position) == SILENCE_I16,
        u8_of(frame_at(samples, position)) == SILENCE_U8,
{
}

/// The side of playback that the realtime output callback owns: the decoded samples, read
/// only, and the cursor it shares with the engine.
pub struct PlaybackSource {
    samples: Vec<i16>,
    cursor: Arc<AtomicUsize>,
}

impl PlaybackSource {
    pub closed spec fn samples(&self) -> Seq<i16> {
        self.samples@
    }

    pub fn len(&self) -> (r: usize)
        ensures
            r == self.samples().len(),
    {
        self.samples.len()
    }

    /// Claims the next `n` frames with one atomic increment of the cursor and returns the
    /// position they start at. Wait-free: no lock is taken. The callback is the cursor's
    /// only writer while the stream runs, so claiming a block at once is the same as claiming
    /// its frames one by one. The position read is whatever the shared cursor held, so
    /// nothing is promised about it here.
    pub fn reserve(&self, n: usize) -> usize {
        self.cursor.fetch_add(n, Ordering::Relaxed)
    }

    /// The sample that frame `start + offset` plays.
    pub fn frame(&self, start: usize, offset: usize) -> (r: i16)
        ensures
            r == frame_at(self.samples(), start + offset),
    {
        frame_after(self.samples.as_slice(), start, offset)
    }

    /// Fills one output block of signed 16-bit frames and advances the cursor past it;
    /// returns the position the block started at.
    pub fn fill_i16(&self, out: &mut [i16]) -> (start: usize)
        ensures
            final(out)@.len() == old(out)@.len(),
            forall|k: int|
                0 <= k < final(out)@.len() ==> #[trigger] final(out)@[k] == frame_at(
                    self.samples(),
                    start + k,
                ),
    {
        let start = self.reserve(out.len());
        render_i16(self.samples.as_slice(), start, out);
        start
    }

    /// Fills one output block of unsigned 8-bit frames and advances the cursor past it;
    /// returns the position the block started at.
    pub fn fill_u8(&self, out: &mut [u8]) -> (start: usize)
        ensures
            final(out)@.len() == old(out)@.len(),
            forall|k: int|
                0 <= k < final(out)@.len() ==> #[trigger] final(out)@[k] == u8_of(
                    frame_at(self.samples(), start + k),
                ),
    {
        let start = self.reserve(out.len());
        render_u8(self.samples.as_slice(), start, out);
        start
    }
}

/// How far playback has come: the cursor's position against the number of samples.
/// The position is not clamped and may exceed the total once the buffer is exhausted.
#[derive(Debug, Clone, Copy, PartialEq, Eq, Structural)]
pub struct Progress {
    pub position: usize,
    pub total: usize,
}

impl Progress {
    /// Playback stands at its start: nothing played, or nothing to play.
    pub open spec fn at_start(self) -> bool {
        self.position == 0 || self.total == 0
    }

    pub fn is_at_start(&self) -> (r: bool)
        ensures
            r == self.at_start(),
    {
        self.position == 0 || self.total == 0
    }
}

/// The controlling side of playback: the number of samples and the cursor shared with the
/// realtime callback.
pub struct StreamHandler {
    total_samples: usize,
    cursor: Arc<AtomicUsize>,
}

impl StreamHandler {
    pub closed spec fn total(&self) -> nat {
        self.total_samples as nat
    }

    /// Takes ownership of the decoded samples and makes the two sides of playback: the
    /// handler, which controls it, and the source, which the output callback reads from.
    /// Both share one cursor, which starts at 0.
    pub fn from_samples(samples: Vec<i16>) -> (r: (Self, PlaybackSource))
        ensures
            r.0.total() == samples@.len(),
            r.1.samples() == samples@,
    {
        let total_samples = samples.len();
        let cursor = Arc::new(AtomicUsize::new(0));
        let handler = StreamHandler { total_samples, cursor: cursor.clone() };
        (handler, PlaybackSource { samples, cursor })
    }

    pub fn total_samples(&self) -> (r: usize)
        ensures
            r == self.total(),
    {
        self.total_samples
    }

    /// The cursor's current position against the buffer's length.
    pub fn progress(&self) -> (r: Progress)
        ensures
            r.total == self.total(),
    {
        Progress { position: self.cursor.load(Ordering::Relaxed), total: self.total_samples }
    }

    /// Starts playback over: `pause` stops the stream, the cursor goes back to 0, then `play`
    /// resumes it. The cursor is reset only once `pause` has succeeded, and `play` runs only
    /// after the reset; the first failure is returned.
    pub fn restart<P, Q>(&self, pause: P, play: Q) -> (r: Result<(), AudioPlayerError>) where
        P: FnOnce() -> Result<(), AudioPlayerError>,
        Q: FnOnce() -> Result<(), AudioPlayerError>,

        requires
            pause.requires(()),
            play.requires(()),
        ensures
            pause.ensures((), r) || play.ensures((), r),
            r is Ok ==> play.ensures((), r) && pause.ensures((), Ok(())),
    {
        let paused = pause();
        let ghost p = paused;
        match paused {
            Err(e) => {
                return Err(e);
            },
            Ok(u) => {
                assert(p == Ok::<(), AudioPlayerError>(u));
            },
        }
        self.cursor.store(0, Ordering::Relaxed);
        let resumed = play();
        resumed
    }
}

} // verus!

use vstd::prelude::*;
use vstd::string::StrSliceExecFns;

use crate::error::{AudioPlayerError, FormatFault};
use crate::stream::{PlaybackSource, Progress, StreamHandler};
use crate::wav::{stream_from_wav_file, wav_samples};

verus! {

/// The final component of `path` without its extension, where there is one.
pub uninterp spec fn stem_of(path: Seq<char>) -> Option<Seq<char>>;

/// The extension of the final component of `path`, where there is one.
pub uninterp spec fn extension_of(path: Seq<char>) -> Option<Seq<char>>;

/// Relies on std::path::Path::file_stem for the track name; the stem of a path given as text
/// is itself text.
#[verifier::external_body]
fn file_stem<'a>(path: &'a str) -> (r: Option<&'a str>)
    ensures
        match r {
            Some(s) => stem_of(path@) == Some(s@),
            None => stem_of(path@) is None,
        },
{
    std::path::Path::new(path).file_stem()?.to_str()
}

/// Relies on std::path::Path::extension to pick the decoder; the extension of a path given as
/// text is itself text.
#[verifier::external_body]
fn file_extension<'a>(path: &'a str) -> (r: Option<&'a str>)
    ensures
        match r {
            Some(s) => extension_of(path@) == Some(s@),
            None => extension_of(path@) is None,
        },
{
    std::path::Path::new(path).extension()?.to_str()
}

/// The characters of an optional piece of text.
pub open spec fn text_of(s: Option<&str>) -> Option<Seq<char>> {
    match s {
        Some(t) => Some(t@),
        None => None,
    }
}

/// Only `wav` and `wave`, in lower case, name a WAV file.
pub open spec fn is_wav_extension(ext: Option<Seq<char>>) -> bool {
    ext == Some(seq!['w', 'a', 'v']) || ext == Some(seq!['w', 'a', 'v', 'e'])
}

/// The track name that a file with this stem and extension plays under, or why it cannot be
/// played: a missing stem first, then an extension that names no supported format.
pub open spec fn track_check(stem: Option<Seq<char>>, ext: Option<Seq<char>>) -> Result<
    Seq<char>,
    AudioPlayerError,
> {
    match stem {
        None => Err(AudioPlayerError::InvalidFileName),
        Some(name) => if is_wav_extension(ext) {
            Ok(name)
        } else {
            Err(AudioPlayerError::UnsupportedFileFormat)
        },
    }
}

/// Whether `a` and `b` hold the same characters.
pub fn same_text(a: &str, b: &str) -> (r: bool)
    ensures
        r == (a@ == b@),
{
    let n = a.unicode_len();
    if n != b.unicode_len() {
        return false;
    }
    let mut i: usize = 0;
    while i < n
        invariant
            n == a@.len(),
            n == b@.len(),
            i <= n,
            a@.subrange(0, i as int) == b@.subrange(0, i as int),
        decreases n - i,
    {
        if a.get_char(i) != b.get_char(i) {
            return false;
        }
        assert(a@.subrange(0, i + 1) =~= a@.subrange(0, i as int).push(a@[i as int]));
        assert(b@.subrange(0, i + 1) =~= b@.subrange(0, i as int).push(b@[i as int]));
        i = i + 1;
    }
    assert(a@ =~= a@.subrange(0, n as int));
    assert(b@ =~= b@.subrange(0, n as int));
    true
}

/// Whether a file with this extension is decoded as WAV.
pub fn is_wav_file(extension: Option<&str>) -> (r: bool)
    ensures
        r == is_wav_extension(text_of(extension)),
{
    match extension {
        None => false,
        Some(ext) => {
            proof {
                reveal_strlit("wav");
                reveal_strlit("wave");
            }
            let wav = same_text(ext, "wav");
            let wave = same_text(ext, "wave");
            assert("wav"@ == seq!['w', 'a', 'v']);
            assert("wave"@ == seq!['w', 'a', 'v', 'e']);
            wav || wave
        },
    }
}

/// Decides, from a file's stem and extension, the name it plays under.
pub fn check_track(stem: Option<&str>, extension: Option<&str>) -> (r: Result<
    String,
    AudioPlayerError,
>)
    ensures
        match track_check(text_of(stem), text_of(extension)) {
            Ok(name) => r matches Ok(s) && s@ == name,
            Err(e) => r == Err::<String, AudioPlayerError>(e),
        },
{
    match stem {
        None => Err(AudioPlayerError::InvalidFileName),
        Some(name) => {
            if is_wav_file(extension) {
                Ok(name.to_owned())
            } else {
                Err(AudioPlayerError::UnsupportedFileFormat)
            }
        },
    }
}

/// A file with a name but an extension other than `wav` or `wave` is refused as an
/// unsupported format, whatever it holds.
pub proof fn lemma_unsupported_extension(stem: Seq<char>, ext: Option<Seq<char>>)
    requires
        !is_wav_extension(ext),
    ensures
        track_check(Some(stem), ext) == Err::<Seq<char>, AudioPlayerError>(
            AudioPlayerError::UnsupportedFileFormat,
        ),
{
}

/// Transport state of the player.
#[derive(Debug, Clone, Copy, PartialEq, Eq, Structural)]
pub enum State {
    WaitingForFile,
    Paused,
    Playing,
}

/// The state that toggling leads to: playing and paused swap, waiting stays.
pub open spec fn toggled(s: State) -> State {
    match s {
        State::Playing => State::Paused,
        State::Paused => State::Playing,
        State::WaitingForFile => State::WaitingForFile,
    }
}

/// Toggling twice comes back to the state it started from; in particular, from playing,
/// pause then resume plays again.
pub proof fn lemma_toggle_twice(s: State)
    ensures
        toggled(toggled(s)) == s,
{
}

/// The player: transport state, the current track's name, and at most one playback engine.
pub struct AudioPlayer {
    state: State,
    engine: Option<StreamHandler>,
    current_file_name: Option<String>,
}

impl AudioPlayer {
    pub closed spec fn status(&self) -> State {
        self.state
    }

    /// Name of the track loaded last, if any.
    pub closed spec fn track(&self) -> Option<Seq<char>> {
        match self.current_file_name {
            Some(s) => Some(s@),
            None => None,
        }
    }

    /// Number of samples of the installed engine, if one is installed.
    pub closed spec fn engine_total(&self) -> Option<nat> {
        match self.engine {
            Some(e) => Some(e.total()),
            None => None,
        }
    }

    /// A player is waiting exactly when no engine is installed, and has a track name exactly
    /// when one is.
    pub closed spec fn wf(&self) -> bool {
        &&& (self.state == State::WaitingForFile) == (self.engine is None)
        &&& (self.engine is None) == (self.current_file_name is None)
    }

    pub fn new() -> (r: Self)
        ensures
            r.wf(),
            r.status() == State::WaitingForFile,
            r.track() is None,
            r.engine_total() is None,
    {
        AudioPlayer { state: State::WaitingForFile, engine: None, current_file_name: None }
    }

    /// Loads and plays the file at `path`. The track name comes from the path's stem and the
    /// extension must be `wav` or `wave`; only then is `read_file` called for the file's
    /// bytes, which are decoded as WAV. `open_output` receives the decoded samples and starts
    /// them on the output device. On success the new engine replaces the old one and the
    /// player is playing; on any failure the player is left exactly as it was.
    pub fn play_file<R, O>(&mut self, path: &str, read_file: R, open_output: O) -> (r: Result<
        (),
        AudioPlayerError,
    >) where
        R: FnOnce() -> Result<Vec<u8>, AudioPlayerError>,
        O: FnOnce(PlaybackSource) -> Result<(), AudioPlayerError>,

        requires
            old(self).wf(),
            read_file.requires(()),
            forall|s: PlaybackSource| open_output.requires((s,)),
        ensures
            final(self).wf(),
            r is Err ==> *final(self) == *old(self),
            track_check(stem_of(path@), extension_of(path@)) matches Err(e) ==> r
                == Err::<(), AudioPlayerError>(e),
            r is Ok ==> {
                &&& track_check(stem_of(path@), extension_of(path@)) is Ok
                &&& final(self).status() == State::Playing
                &&& final(self).track() == stem_of(path@)
            },
            r is Ok ==> exists|bytes: Vec<u8>, source: PlaybackSource|
                #![trigger read_file.ensures((), Ok(bytes)), open_output.ensures((source,), Ok(()))]
                {
                    &&& read_file.ensures((), Ok(bytes))
                    &&& wav_samples(bytes@) == Ok::<Seq<i16>, FormatFault>(source.samples())
                    &&& open_output.ensures((source,), Ok(()))
                    &&& final(self).engine_total() == Some(source.samples().len())
                },
            r matches Err(e) ==> {
                ||| track_check(stem_of(path@), extension_of(path@)) == Err::<
                    Seq<char>,
                    AudioPlayerError,
                >(e)
                ||| read_file.ensures((), Err(e))
                ||| exists|bytes: Vec<u8>|
                    #![trigger read_file.ensures((), Ok(bytes))]
                    read_file.ensures((), Ok(bytes)) && (wav_samples(bytes@) matches Err(f) && e
                        == AudioPlayerError::FormatError(f))
                ||| exists|source: PlaybackSource|
                    #![trigger open_output.ensures((source,), Err(e))]
                    open_output.ensures((source,), Err(e))
            },
    {
        let stem = file_stem(path);
        let extension = file_extension(path);
        let name = match check_track(stem, extension) {
            Ok(name) => name,
            Err(e) => {
                return Err(e);
            },
        };
        let bytes = match read_file() {
            Ok(bytes) => bytes,
            Err(e) => {
                return Err(e);
            },
        };
        let samples = match stream_from_wav_file(bytes.as_slice()) {
            Ok(samples) => samples,
            Err(e) => {
                return Err(e);
            },
        };
        let (engine, source) = StreamHandler::from_samples(samples);
        let ghost handed = source;
        let opened = open_output(source);
        let ghost outcome = opened;
        match opened {
            Ok(u) => {
                assert(outcome == Ok::<(), AudioPlayerError>(u));
            },
            Err(e) => {
                return Err(e);
            },
        }
        assert(open_output.ensures((handed,), Ok(())));
        self.engine = Some(engine);
        self.current_file_name = Some(name);
        self.state = State::Playing;
        Ok(())
    }

    /// Playing pauses through `pause`, paused resumes through `play`, waiting does nothing.
    /// The state changes only when the stream call succeeds; its error is returned otherwise.
    pub fn toggle_playing<P, Q>(&mut self, pause: P, play: Q) -> (r: Result<
        (),
        AudioPlayerError,
    >) where
        P: FnOnce() -> Result<(), AudioPlayerError>,
        Q: FnOnce() -> Result<(), AudioPlayerError>,

        requires
            old(self).wf(),
            pause.requires(()),
            play.requires(()),
        ensures
            final(self).wf(),
            old(self).status() == State::Playing ==> pause.ensures((), r),
            old(self).status() == State::Paused ==> play.ensures((), r),
            old(self).status() == State::WaitingForFile ==> r is Ok,
            r is Ok ==> final(self).status() == toggled(old(self).status()),
            r is Err ==> final(self).status() == old(self).status(),
            final(self).track() == old(self).track(),
            final(self).engine_total() == old(self).engine_total(),
    {
        match self.state {
            State::Playing => {
                let res = pause();
                if res.is_ok() {
                    self.state = State::Paused;
                }
                res
            },
            State::Paused => {
                let res = play();
                if res.is_ok() {
                    self.state = State::Playing;
                }
                res
            },
            State::WaitingForFile => Ok(()),
        }
    }

    /// Starts the current track over (see `StreamHandler::restart`); does nothing when no
    /// track is loaded. The transport state is not changed.
    pub fn restart<P, Q>(&self, pause: P, play: Q) -> (r: Result<(), AudioPlayerError>) where
        P: FnOnce() -> Result<(), AudioPlayerError>,
        Q: FnOnce() -> Result<(), AudioPlayerError>,

        requires
            pause.requires(()),
            play.requires(()),
        ensures
            self.engine_total() is None ==> r is Ok,
            self.engine_total() is Some ==> pause.ensures((), r) || play.ensures((), r),
    {
        match &self.engine {
            Some(engine) => engine.restart(pause, play),
            None => Ok(()),
        }
    }

    /// Progress of the installed engine; nothing played out of nothing when none is.
    pub fn progress(&self) -> (r: Progress)
        ensures
            self.engine_total() is None ==> r == (Progress { position: 0, total: 0 }),
            self.engine_total() matches Some(n) ==> r.total == n,
    {
        match &self.engine {
            Some(engine) => engine.progress(),
            None => Progress { position: 0, total: 0 },
        }
    }

    /// Label of the play/pause control: it offers to pause while playing, to play otherwise.
    pub fn pause_or_play_button_text(&self) -> (r: &'static str)
        ensures
            self.status() == State::Playing ==> r@ == "Pause"@,
            self.status() != State::Playing ==> r@ == "Play"@,
    {
        match self.state {
            State::Playing => "Pause",
            _ => "Play",
        }
    }

    pub fn track_name(&self) -> (r: Option<String>)
        ensures
            match r {
                Some(s) => self.track() == Some(s@),
                None => self.track() is None,
            },
    {
        match &self.current_file_name {
            Some(name) => Some(name.clone()),
            None => None,
        }
    }

    pub fn state(&self) -> (r: State)
        ensures
            r == self.status(),
    {
        self.state
    }

    pub fn is_playing(&self) -> (r: bool)
        ensures
            r == (self.status() == State::Playing),
    {
        self.state == State::Playing
    }
}

} // verus!

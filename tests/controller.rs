use audium::audio_player::{check_track, is_wav_file, same_text};
use audium::{command_for, Command, Key};
use audium::{
    AudioPlayer, AudioPlayerError, FormatFault, PlaybackSource, SelectFile, State, StreamFault,
};
use std::cell::Cell;

fn minimal_wav() -> Vec<u8> {
    let mut bytes = b"RIFF".to_vec();
    bytes.extend(std::iter::repeat(0u8).take(40));
    bytes.extend([0x01, 0x00, 0x02, 0x00]);
    bytes
}

fn loaded(path: &str) -> AudioPlayer {
    let mut player = AudioPlayer::new();
    let r = player.play_file(path, || Ok(minimal_wav()), |_source: PlaybackSource| Ok(()));
    assert_eq!(r, Ok(()));
    player
}

#[test]
fn new_player_waits_for_a_file() {
    let player = AudioPlayer::new();
    assert_eq!(player.state(), State::WaitingForFile);
    assert!(!player.is_playing());
    assert_eq!(player.track_name(), None);
    assert_eq!(player.pause_or_play_button_text(), "Play");
    let p = player.progress();
    assert_eq!((p.position, p.total), (0, 0));
}

#[test]
fn valid_wav_path_starts_playing() {
    let opened = Cell::new(0usize);
    let mut player = AudioPlayer::new();
    let r = player.play_file(
        "music/track.wav",
        || Ok(minimal_wav()),
        |source: PlaybackSource| {
            opened.set(source.len());
            Ok(())
        },
    );
    assert_eq!(r, Ok(()));
    assert_eq!(opened.get(), 2);
    assert_eq!(player.state(), State::Playing);
    assert!(player.is_playing());
    assert_eq!(player.track_name(), Some("track".to_string()));
    assert_eq!(player.pause_or_play_button_text(), "Pause");
    let p = player.progress();
    assert_eq!((p.position, p.total), (0, 2));
}

#[test]
fn wave_extension_is_accepted() {
    let player = loaded("/tmp/a.b.wave");
    assert_eq!(player.track_name(), Some("a.b".to_string()));
}

#[test]
fn mp3_path_is_refused_without_reading() {
    let read = Cell::new(false);
    let mut player = AudioPlayer::new();
    let r = player.play_file(
        "track.mp3",
        || {
            read.set(true);
            Ok(minimal_wav())
        },
        |_source: PlaybackSource| Ok(()),
    );
    assert_eq!(r, Err(AudioPlayerError::UnsupportedFileFormat));
    assert!(!read.get());
    assert_eq!(player.state(), State::WaitingForFile);
    assert_eq!(player.track_name(), None);
}

#[test]
fn mp3_path_leaves_the_loaded_track_alone() {
    let mut player = loaded("first.wav");
    let r = player.play_file("track.mp3", || Ok(minimal_wav()), |_source: PlaybackSource| Ok(()));
    assert_eq!(r, Err(AudioPlayerError::UnsupportedFileFormat));
    assert_eq!(player.state(), State::Playing);
    assert_eq!(player.track_name(), Some("first".to_string()));
    assert_eq!(player.progress().total, 2);
}

#[test]
fn extension_match_is_case_sensitive() {
    let mut player = AudioPlayer::new();
    let r = player.play_file("LOUD.WAV", || Ok(minimal_wav()), |_source: PlaybackSource| Ok(()));
    assert_eq!(r, Err(AudioPlayerError::UnsupportedFileFormat));
    let r = player.play_file("noext", || Ok(minimal_wav()), |_source: PlaybackSource| Ok(()));
    assert_eq!(r, Err(AudioPlayerError::UnsupportedFileFormat));
}

#[test]
fn path_without_stem_is_an_invalid_name() {
    let mut player = AudioPlayer::new();
    for path in ["", "/", ".."] {
        let r = player.play_file(path, || Ok(minimal_wav()), |_source: PlaybackSource| Ok(()));
        assert_eq!(r, Err(AudioPlayerError::InvalidFileName));
    }
    assert_eq!(player.state(), State::WaitingForFile);
}

#[test]
fn read_failure_is_returned_and_changes_nothing() {
    let mut player = loaded("keep.wav");
    let r = player.play_file(
        "other.wav",
        || Err(AudioPlayerError::IoError("not found".to_string())),
        |_source: PlaybackSource| Ok(()),
    );
    assert_eq!(r, Err(AudioPlayerError::IoError("not found".to_string())));
    assert_eq!(player.track_name(), Some("keep".to_string()));
    assert_eq!(player.state(), State::Playing);
}

#[test]
fn undecodable_file_changes_nothing() {
    let opened = Cell::new(false);
    let mut player = AudioPlayer::new();
    let r = player.play_file(
        "broken.wav",
        || Ok(b"RIFF".to_vec()),
        |_source: PlaybackSource| {
            opened.set(true);
            Ok(())
        },
    );
    assert_eq!(r, Err(AudioPlayerError::FormatError(FormatFault::HeaderTooShort)));
    assert!(!opened.get());
    assert_eq!(player.state(), State::WaitingForFile);
    let r = player.play_file(
        "broken.wav",
        || Ok(vec![0u8; 50]),
        |_source: PlaybackSource| Ok(()),
    );
    assert_eq!(r, Err(AudioPlayerError::FormatError(FormatFault::BadMagic)));
}

#[test]
fn device_failure_keeps_the_old_engine() {
    let mut player = loaded("old.wav");
    let mut longer = minimal_wav();
    longer.extend([3, 0, 4, 0]);
    let r = player.play_file(
        "new.wav",
        || Ok(longer),
        |_source: PlaybackSource| Err(AudioPlayerError::StreamError(StreamFault::NoDevice)),
    );
    assert_eq!(r, Err(AudioPlayerError::StreamError(StreamFault::NoDevice)));
    assert_eq!(player.track_name(), Some("old".to_string()));
    assert_eq!(player.progress().total, 2);
}

#[test]
fn new_file_replaces_the_engine() {
    let mut player = loaded("old.wav");
    assert_eq!(player.toggle_playing(|| Ok(()), || Ok(())), Ok(()));
    assert_eq!(player.state(), State::Paused);
    let mut longer = minimal_wav();
    longer.extend([3, 0, 4, 0, 5, 0]);
    let r = player.play_file("new.wav", || Ok(longer), |_source: PlaybackSource| Ok(()));
    assert_eq!(r, Ok(()));
    assert_eq!(player.state(), State::Playing);
    assert_eq!(player.track_name(), Some("new".to_string()));
    assert_eq!(player.progress().total, 5);
}

#[test]
fn toggle_twice_returns_to_playing() {
    let mut player = loaded("song.wav");
    assert_eq!(player.toggle_playing(|| Ok(()), || Ok(())), Ok(()));
    assert_eq!(player.state(), State::Paused);
    assert_eq!(player.pause_or_play_button_text(), "Play");
    assert_eq!(player.toggle_playing(|| Ok(()), || Ok(())), Ok(()));
    assert_eq!(player.state(), State::Playing);
    assert_eq!(player.pause_or_play_button_text(), "Pause");
}

#[test]
fn toggle_uses_pause_then_play() {
    let mut player = loaded("song.wav");
    let log = Cell::new(0u32);
    player
        .toggle_playing(|| Ok(log.set(log.get() * 10 + 1)), || Ok(log.set(log.get() * 10 + 2)))
        .unwrap();
    player
        .toggle_playing(|| Ok(log.set(log.get() * 10 + 1)), || Ok(log.set(log.get() * 10 + 2)))
        .unwrap();
    assert_eq!(log.get(), 12);
}

#[test]
fn toggle_while_waiting_does_nothing() {
    let called = Cell::new(false);
    let mut player = AudioPlayer::new();
    let r = player.toggle_playing(|| Ok(called.set(true)), || Ok(called.set(true)));
    assert_eq!(r, Ok(()));
    assert!(!called.get());
    assert_eq!(player.state(), State::WaitingForFile);
}

#[test]
fn failed_pause_keeps_playing() {
    let mut player = loaded("song.wav");
    let r = player.toggle_playing(
        || Err(AudioPlayerError::StreamError(StreamFault::PauseFailed)),
        || Ok(()),
    );
    assert_eq!(r, Err(AudioPlayerError::StreamError(StreamFault::PauseFailed)));
    assert_eq!(player.state(), State::Playing);
}

#[test]
fn restart_without_track_does_nothing() {
    let called = Cell::new(false);
    let player = AudioPlayer::new();
    assert_eq!(player.restart(|| Ok(called.set(true)), || Ok(called.set(true))), Ok(()));
    assert!(!called.get());
}

#[test]
fn restart_keeps_the_transport_state() {
    let mut player = loaded("song.wav");
    player.toggle_playing(|| Ok(()), || Ok(())).unwrap();
    let log = Cell::new(0u32);
    let r = player.restart(|| Ok(log.set(log.get() * 10 + 1)), || Ok(log.set(log.get() * 10 + 2)));
    assert_eq!(r, Ok(()));
    assert_eq!(log.get(), 12);
    assert_eq!(player.state(), State::Paused);
    assert_eq!(player.progress().position, 0);
}

#[test]
fn track_checks_name_then_format() {
    assert_eq!(check_track(Some("a"), Some("wav")), Ok("a".to_string()));
    assert_eq!(check_track(Some("a"), Some("wave")), Ok("a".to_string()));
    assert_eq!(check_track(Some("a"), Some("mp3")), Err(AudioPlayerError::UnsupportedFileFormat));
    assert_eq!(check_track(Some("a"), None), Err(AudioPlayerError::UnsupportedFileFormat));
    assert_eq!(check_track(None, Some("wav")), Err(AudioPlayerError::InvalidFileName));
    assert_eq!(check_track(None, Some("mp3")), Err(AudioPlayerError::InvalidFileName));
}

#[test]
fn wav_extensions_are_exact() {
    assert!(is_wav_file(Some("wav")));
    assert!(is_wav_file(Some("wave")));
    assert!(!is_wav_file(Some("Wav")));
    assert!(!is_wav_file(Some("wa")));
    assert!(!is_wav_file(Some("waves")));
    assert!(!is_wav_file(Some("")));
    assert!(!is_wav_file(None));
}

#[test]
fn text_comparison_is_by_characters() {
    assert!(same_text("", ""));
    assert!(same_text("héllo", "héllo"));
    assert!(!same_text("héllo", "hello"));
    assert!(!same_text("ab", "abc"));
}

#[test]
fn picker_output_is_trimmed() {
    let mut select = SelectFile { file_path: "/tmp/choice.txt".to_string() };
    assert_eq!(select.take_choice("  /music/a song.wav\n"), Ok(()));
    assert_eq!(select.file_path, "/music/a song.wav");
}

#[test]
fn empty_picker_output_means_no_file() {
    let mut select = SelectFile { file_path: "/tmp/choice.txt".to_string() };
    assert_eq!(select.take_choice(" \n\t"), Err(AudioPlayerError::NoFileSelected));
    assert_eq!(select.file_path, "");
    assert_eq!(select.take_choice(""), Err(AudioPlayerError::NoFileSelected));
}

#[test]
fn keys_map_to_commands() {
    assert_eq!(command_for(Key::Esc), Command::Quit);
    assert_eq!(command_for(Key::Char('q')), Command::Quit);
    assert_eq!(command_for(Key::Char(' ')), Command::TogglePlaying);
    assert_eq!(command_for(Key::Char('r')), Command::Restart);
    assert_eq!(command_for(Key::Char('Q')), Command::Nothing);
    assert_eq!(command_for(Key::Char('x')), Command::Nothing);
    assert_eq!(command_for(Key::Other), Command::Nothing);
}

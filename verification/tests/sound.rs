use whisper_input::sound::{system_sound_path, SoundCue};

#[test]
fn listening_started_has_distinct_sound() {
    assert_eq!(system_sound_path(SoundCue::ListeningStarted), "/System/Library/Sounds/Pop.aiff");
}

#[test]
fn listening_stopped_has_distinct_sound() {
    assert_eq!(system_sound_path(SoundCue::ListeningStopped), "/System/Library/Sounds/Glass.aiff");
}

use transcribe::MediaPlayer;

#[test]
fn new_player_has_paused_nothing() {
    let p = MediaPlayer::new();
    assert!(!p.was_playing());
}

#[test]
fn player_not_running_is_not_paused_or_resumed() {
    let mut p = MediaPlayer::new();
    assert!(!p.pause_spotify(false, false));
    assert!(!p.was_playing());
    assert!(!p.play_spotify());
    assert!(!p.was_playing());
}

#[test]
fn player_running_but_paused_is_not_paused_or_resumed() {
    let mut p = MediaPlayer::new();
    assert!(!p.pause_spotify(true, false));
    assert!(!p.was_playing());
    assert!(!p.play_spotify());
}

#[test]
fn player_playing_is_paused_then_resumed_once() {
    let mut p = MediaPlayer::new();
    assert!(p.pause_spotify(true, true));
    assert!(p.was_playing());
    assert!(p.play_spotify());
    assert!(!p.was_playing());
    assert!(!p.play_spotify());
}

#[test]
fn playing_reported_without_running_is_not_paused() {
    let mut p = MediaPlayer::new();
    assert!(!p.pause_spotify(false, true));
    assert!(!p.was_playing());
}

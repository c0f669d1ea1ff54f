use transcribe::{reports_playing, reports_running};

#[test]
fn running_output_is_read_without_surrounding_whitespace() {
    assert!(reports_running("true"));
    assert!(reports_running("true\n"));
    assert!(reports_running("  true \r\n"));
}

#[test]
fn other_running_outputs_are_not_running() {
    assert!(!reports_running("false\n"));
    assert!(!reports_running(""));
    assert!(!reports_running("\n"));
    assert!(!reports_running("tru"));
    assert!(!reports_running("true true"));
    assert!(!reports_running("TRUE"));
}

#[test]
fn player_state_output_is_read() {
    assert!(reports_playing("playing\n"));
    assert!(!reports_playing("paused\n"));
    assert!(!reports_playing("stopped"));
    assert!(!reports_playing("play ing"));
}

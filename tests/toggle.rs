use transcribe::{Command, Event, Icon, Notice, ToggleFlow, ToggleStage};

#[test]
fn empty_reply_means_recording_started() {
    let (mut f, first) = ToggleFlow::start(false);
    assert_eq!(first, Command::SubmitToggle);
    assert!(f.step(Event::Submitted(true)).is_empty());
    assert_eq!(f.stage, ToggleStage::AwaitingReply);
    let cmds = f.step(Event::ToggleReplied(Some(vec![])));
    assert_eq!(cmds, vec![Command::SetIcon(Icon::Recording)]);
    assert!(f.is_done());
}

#[test]
fn failed_submission_ends_quietly() {
    let (mut f, _) = ToggleFlow::start(true);
    assert!(f.step(Event::Submitted(false)).is_empty());
    assert!(f.is_done());
    assert_eq!(f.icon, None);
}

#[test]
fn closed_reply_restores_default_icon() {
    let (mut f, _) = ToggleFlow::start(false);
    f.step(Event::Submitted(true));
    let cmds = f.step(Event::ToggleReplied(None));
    assert_eq!(cmds, vec![Command::SetIcon(Icon::Default)]);
    assert!(f.is_done());
}

#[test]
fn recorded_audio_is_transcribed_and_notified() {
    let (mut f, _) = ToggleFlow::start(false);
    f.step(Event::Submitted(true));
    let cmds = f.step(Event::ToggleReplied(Some(vec![1, 2, 3])));
    assert_eq!(
        cmds,
        vec![Command::SetIcon(Icon::Transcribing), Command::Transcribe(vec![1, 2, 3])]
    );
    let cmds = f.step(Event::Transcribed(Some("hello".to_string())));
    assert_eq!(
        cmds,
        vec![Command::SetIcon(Icon::Default), Command::WriteClipboard("hello".to_string())]
    );
    let cmds = f.step(Event::ClipboardWritten(true));
    assert_eq!(cmds, vec![Command::Notify(Notice::TranscribeSuccess)]);
    assert!(f.is_done());
    assert_eq!(f.icon, Some(Icon::Default));
}

#[test]
fn recorded_audio_is_pasted_on_hotkey() {
    let (mut f, _) = ToggleFlow::start(true);
    f.step(Event::Submitted(true));
    f.step(Event::ToggleReplied(Some(vec![9])));
    f.step(Event::Transcribed(Some("hi".to_string())));
    let cmds = f.step(Event::ClipboardWritten(true));
    assert_eq!(cmds, vec![Command::SubmitPaste]);
    assert!(f.is_done());
}

#[test]
fn transcription_failure_notifies_api_error() {
    let (mut f, _) = ToggleFlow::start(true);
    f.step(Event::Submitted(true));
    f.step(Event::ToggleReplied(Some(vec![9])));
    let cmds = f.step(Event::Transcribed(None));
    assert_eq!(
        cmds,
        vec![Command::SetIcon(Icon::Default), Command::Notify(Notice::ApiError)]
    );
    assert!(f.is_done());
    assert_eq!(f.icon, Some(Icon::Default));
}

#[test]
fn clipboard_write_failure_ends_without_paste() {
    let (mut f, _) = ToggleFlow::start(true);
    f.step(Event::Submitted(true));
    f.step(Event::ToggleReplied(Some(vec![9])));
    f.step(Event::Transcribed(Some("hi".to_string())));
    assert!(f.step(Event::ClipboardWritten(false)).is_empty());
    assert!(f.is_done());
}

#[test]
fn toggle_ignores_unexpected_events() {
    let (mut f, _) = ToggleFlow::start(false);
    assert!(f.step(Event::Transcribed(Some("x".to_string()))).is_empty());
    assert_eq!(f.stage, ToggleStage::Submitting);
}

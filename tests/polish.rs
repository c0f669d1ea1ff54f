use transcribe::{CleansingGuard, Command, Event, Icon, Notice, PolishFlow, PolishStage};

fn read(text: &str) -> Event {
    Event::ClipboardRead(Some(text.to_string()))
}

#[test]
fn guard_is_single_flight() {
    let mut g = CleansingGuard::new();
    assert!(g.try_acquire());
    assert!(!g.try_acquire());
    g.release();
    assert!(!g.held);
    assert!(g.try_acquire());
}

#[test]
fn empty_clipboard_only_notifies() {
    let mut g = CleansingGuard::new();
    let (mut f, first) = PolishFlow::start(false);
    assert_eq!(first, Command::ReadClipboard);
    let cmds = f.step(read(""), &mut g);
    assert_eq!(cmds, vec![Command::Notify(Notice::EmptyClipboard)]);
    assert!(f.is_done());
    assert!(!g.held);
    assert_eq!(f.icon, None);
}

#[test]
fn unreadable_clipboard_only_notifies() {
    let mut g = CleansingGuard::new();
    let (mut f, _) = PolishFlow::start(true);
    let cmds = f.step(Event::ClipboardRead(None), &mut g);
    assert_eq!(cmds, vec![Command::Notify(Notice::EmptyClipboard)]);
    assert!(f.is_done());
    assert!(!g.held);
}

#[test]
fn second_run_while_guarded_does_nothing() {
    let mut g = CleansingGuard::new();
    let (mut a, _) = PolishFlow::start(false);
    let (mut b, _) = PolishFlow::start(false);
    let cmds = a.step(read("first"), &mut g);
    assert_eq!(cmds.len(), 3);
    assert!(g.held);
    let cmds = b.step(read("second"), &mut g);
    assert!(cmds.is_empty());
    assert!(b.is_done());
    assert!(!b.holds_guard);
    assert!(g.held);
    assert!(a.holds_guard);
}

#[test]
fn polish_without_paste_succeeds_and_releases() {
    let mut g = CleansingGuard::new();
    let (mut f, _) = PolishFlow::start(false);
    let cmds = f.step(read("helo wrld"), &mut g);
    assert_eq!(
        cmds,
        vec![
            Command::SetIcon(Icon::Cleansing),
            Command::Notify(Notice::StartPolishing),
            Command::Polish("helo wrld".to_string()),
        ]
    );
    assert_eq!(f.stage, PolishStage::Polishing);
    let cmds = f.step(Event::Polished(Some("Hello world.".to_string())), &mut g);
    assert_eq!(cmds, vec![Command::WriteClipboard("Hello world.".to_string())]);
    let cmds = f.step(Event::ClipboardWritten(true), &mut g);
    assert_eq!(
        cmds,
        vec![Command::Notify(Notice::PolishSuccess), Command::SetIcon(Icon::Default)]
    );
    assert!(f.is_done());
    assert!(!g.held);
    assert_eq!(f.icon, Some(Icon::Default));
}

#[test]
fn polish_with_paste_undoes_before_pasting() {
    let mut g = CleansingGuard::new();
    let (mut f, _) = PolishFlow::start(true);
    f.step(read("some text"), &mut g);
    f.step(Event::Polished(Some("Some text.".to_string())), &mut g);
    let cmds = f.step(Event::ClipboardWritten(true), &mut g);
    assert_eq!(cmds, vec![Command::SubmitUndo]);
    assert_eq!(f.stage, PolishStage::AwaitingUndo);
    assert!(g.held);
    let cmds = f.step(Event::ClipboardWritten(true), &mut g);
    assert!(cmds.is_empty());
    assert_eq!(f.stage, PolishStage::AwaitingUndo);
    let cmds = f.step(Event::UndoReplied(true), &mut g);
    assert_eq!(cmds, vec![Command::SubmitPaste, Command::SetIcon(Icon::Default)]);
    assert!(f.is_done());
    assert!(!g.held);
    assert_eq!(f.icon, Some(Icon::Default));
}

#[test]
fn polish_service_failure_releases_guard() {
    let mut g = CleansingGuard::new();
    let (mut f, _) = PolishFlow::start(true);
    f.step(read("x"), &mut g);
    let cmds = f.step(Event::Polished(None), &mut g);
    assert_eq!(
        cmds,
        vec![Command::Notify(Notice::ApiError), Command::SetIcon(Icon::Default)]
    );
    assert!(f.is_done());
    assert!(!g.held);
}

#[test]
fn polish_write_failure_releases_guard() {
    let mut g = CleansingGuard::new();
    let (mut f, _) = PolishFlow::start(true);
    f.step(read("x"), &mut g);
    f.step(Event::Polished(Some("X".to_string())), &mut g);
    let cmds = f.step(Event::ClipboardWritten(false), &mut g);
    assert_eq!(cmds, vec![Command::SetIcon(Icon::Default)]);
    assert!(f.is_done());
    assert!(!g.held);
}

#[test]
fn polish_ignores_unexpected_events() {
    let mut g = CleansingGuard::new();
    let (mut f, _) = PolishFlow::start(false);
    let cmds = f.step(Event::UndoReplied(true), &mut g);
    assert!(cmds.is_empty());
    assert_eq!(f.stage, PolishStage::ReadingClipboard);
    assert!(!g.held);
}

#[test]
fn closed_undo_reply_ends_without_paste() {
    let mut g = CleansingGuard::new();
    let (mut f, _) = PolishFlow::start(true);
    f.step(read("some text"), &mut g);
    f.step(Event::Polished(Some("Some text.".to_string())), &mut g);
    f.step(Event::ClipboardWritten(true), &mut g);
    let cmds = f.step(Event::UndoReplied(false), &mut g);
    assert_eq!(cmds, vec![Command::SetIcon(Icon::Default)]);
    assert!(!cmds.contains(&Command::SubmitPaste));
    assert!(f.is_done());
    assert!(!g.held);
    assert_eq!(f.icon, Some(Icon::Default));
}

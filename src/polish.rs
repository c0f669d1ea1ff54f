use vstd::prelude::*;

use crate::signals::{last_icon, Command, Event, Icon, Notice};

verus! {

/// The single-flight flag shared by every trigger source: a polish workflow
/// is in flight while it is held. The driver keeps it behind a mutex and
/// calls these methods under one lock acquisition, so that checking and
/// setting are one step.
#[derive(Debug)]
pub struct CleansingGuard {
    pub held: bool,
}

impl CleansingGuard {
    pub fn new() -> (r: Self)
        ensures
            !r.held,
    {
        CleansingGuard { held: false }
    }

    /// Takes the guard if it is free. Whoever gets `true` holds it.
    pub fn try_acquire(&mut self) -> (acquired: bool)
        ensures
            acquired == !old(self).held,
            final(self).held,
    {
        if self.held {
            false
        } else {
            self.held = true;
            true
        }
    }

    pub fn release(&mut self)
        ensures
            !final(self).held,
    {
        self.held = false;
    }
}

/// The steps of the polish workflow.
#[derive(Clone, Copy, Debug, PartialEq, Eq, Structural)]
pub enum PolishStage {
    ReadingClipboard,
    Polishing,
    WritingClipboard,
    AwaitingUndo,
    Done,
}

/// One run of the polish workflow: read the clipboard, take the guard, have
/// the text polished, write it back, and with `paste_after` undo and then
/// paste.
#[derive(Clone, Copy, Debug)]
pub struct PolishFlow {
    pub stage: PolishStage,
    pub paste_after: bool,
    /// Whether this run holds the cleansing guard.
    pub holds_guard: bool,
    /// The last icon this run has set, if any.
    pub icon: Option<Icon>,
}

pub open spec fn polish_stage_rank(s: PolishStage) -> nat {
    match s {
        PolishStage::ReadingClipboard => 0,
        PolishStage::Polishing => 1,
        PolishStage::WritingClipboard => 2,
        PolishStage::AwaitingUndo => 3,
        PolishStage::Done => 4,
    }
}

/// Whether the workflow, at stage `s`, is waiting for event `e`.
pub open spec fn polish_accepts(s: PolishStage, e: Event) -> bool {
    match s {
        PolishStage::ReadingClipboard => e is ClipboardRead,
        PolishStage::Polishing => e is Polished,
        PolishStage::WritingClipboard => e is ClipboardWritten,
        PolishStage::AwaitingUndo => e is UndoReplied,
        PolishStage::Done => false,
    }
}

/// Clipboard text worth polishing.
pub open spec fn readable_text(e: Event) -> bool {
    e matches Event::ClipboardRead(Some(t)) && t@.len() > 0
}

/// The commands issued on event `e`, given whether the guard was held.
pub open spec fn polish_commands(f: PolishFlow, guard_held: bool, e: Event) -> Seq<Command> {
    if !polish_accepts(f.stage, e) {
        seq![]
    } else {
        match e {
            Event::ClipboardRead(text) => if !readable_text(e) {
                seq![Command::Notify(Notice::EmptyClipboard)]
            } else if guard_held {
                seq![]
            } else {
                seq![
                    Command::SetIcon(Icon::Cleansing),
                    Command::Notify(Notice::StartPolishing),
                    Command::Polish(text.unwrap()),
                ]
            },
            Event::Polished(None) => seq![
                Command::Notify(Notice::ApiError),
                Command::SetIcon(Icon::Default),
            ],
            Event::Polished(Some(t)) => seq![Command::WriteClipboard(t)],
            Event::ClipboardWritten(ok) => if !ok {
                seq![Command::SetIcon(Icon::Default)]
            } else if f.paste_after {
                seq![Command::SubmitUndo]
            } else {
                seq![Command::Notify(Notice::PolishSuccess), Command::SetIcon(Icon::Default)]
            },
            Event::UndoReplied(true) => seq![Command::SubmitPaste, Command::SetIcon(Icon::Default)],
            _ => seq![Command::SetIcon(Icon::Default)],
        }
    }
}

/// The stage after event `e`, given whether the guard was held.
pub open spec fn polish_next_stage(f: PolishFlow, guard_held: bool, e: Event) -> PolishStage {
    if !polish_accepts(f.stage, e) {
        f.stage
    } else {
        match e {
            Event::ClipboardRead(_) => if readable_text(e) && !guard_held {
                PolishStage::Polishing
            } else {
                PolishStage::Done
            },
            Event::Polished(Some(_)) => PolishStage::WritingClipboard,
            Event::ClipboardWritten(ok) => if ok && f.paste_after {
                PolishStage::AwaitingUndo
            } else {
                PolishStage::Done
            },
            _ => PolishStage::Done,
        }
    }
}

/// The workflow after event `e`, given whether the guard was held.
pub open spec fn polish_next(f: PolishFlow, guard_held: bool, e: Event) -> PolishFlow {
    let stage = polish_next_stage(f, guard_held, e);
    PolishFlow {
        stage,
        paste_after: f.paste_after,
        holds_guard: stage != PolishStage::Done && stage != PolishStage::ReadingClipboard,
        icon: last_icon(f.icon, polish_commands(f, guard_held, e)),
    }
}

/// The guard after event `e`.
pub open spec fn polish_guard_after(f: PolishFlow, guard_held: bool, e: Event) -> bool {
    let n = polish_next(f, guard_held, e);
    if n.holds_guard {
        true
    } else if f.holds_guard {
        false
    } else {
        guard_held
    }
}

/// A run in a consistent state: it holds the guard exactly between taking it
/// and finishing, and a finished run that has set an icon left the default.
pub open spec fn polish_wf(f: PolishFlow) -> bool {
    &&& f.holds_guard == (f.stage != PolishStage::Done && f.stage
        != PolishStage::ReadingClipboard)
    &&& f.stage == PolishStage::ReadingClipboard ==> f.icon.is_none()
    &&& f.stage == PolishStage::Done ==> (f.icon.is_none() || f.icon == Some(Icon::Default))
    &&& (f.stage == PolishStage::Polishing || f.stage == PolishStage::WritingClipboard || f.stage
        == PolishStage::AwaitingUndo) ==> f.icon == Some(Icon::Cleansing)
    &&& f.stage == PolishStage::AwaitingUndo ==> f.paste_after
}

impl PolishFlow {
    /// Starts a run; the first command is to read the clipboard.
    pub fn start(paste_after: bool) -> (r: (PolishFlow, Command))
        ensures
            r.0.stage == PolishStage::ReadingClipboard,
            r.0.paste_after == paste_after,
            !r.0.holds_guard,
            r.0.icon.is_none(),
            polish_wf(r.0),
            r.1 is ReadClipboard,
    {
        (
            PolishFlow {
                stage: PolishStage::ReadingClipboard,
                paste_after,
                holds_guard: false,
                icon: None,
            },
            Command::ReadClipboard,
        )
    }

    pub fn is_done(&self) -> (r: bool)
        ensures
            r == (self.stage == PolishStage::Done),
    {
        match self.stage {
            PolishStage::Done => true,
            _ => false,
        }
    }

    /// Advances the run on what came of its last command and returns the
    /// commands to perform next, in order. Empty or unreadable clipboard text
    /// only raises a notice and ends the run without touching the guard; a
    /// guard already held ends it with no command at all. Once the guard is
    /// taken, every ending restores the default icon and releases it. With
    /// `paste_after`, the paste is issued only once the undo's reply has been
    /// received; a closed reply channel ends the run without a paste. An event
    /// the run is not waiting for changes nothing.
    pub fn step(&mut self, event: Event, guard: &mut CleansingGuard) -> (r: Vec<Command>)
        requires
            polish_wf(*old(self)),
            old(self).holds_guard ==> old(guard).held,
        ensures
            r@ == polish_commands(*old(self), old(guard).held, event),
            *final(self) == polish_next(*old(self), old(guard).held, event),
            final(guard).held == polish_guard_after(*old(self), old(guard).held, event),
            polish_wf(*final(self)),
            final(self).holds_guard ==> final(guard).held,
    {
        let mut cmds: Vec<Command> = Vec::new();
        let ghost f0 = *self;
        let ghost g0 = guard.held;
        match (self.stage, event) {
            (PolishStage::ReadingClipboard, Event::ClipboardRead(text)) => {
                let readable = match &text {
                    Some(t) => !t.as_str().is_empty(),
                    None => false,
                };
                if !readable {
                    cmds.push(Command::Notify(Notice::EmptyClipboard));
                    self.stage = PolishStage::Done;
                } else if !guard.try_acquire() {
                    self.stage = PolishStage::Done;
                } else {
                    self.holds_guard = true;
                    self.stage = PolishStage::Polishing;
                    cmds.push(Command::SetIcon(Icon::Cleansing));
                    self.icon = Some(Icon::Cleansing);
                    cmds.push(Command::Notify(Notice::StartPolishing));
                    match text {
                        Some(t) => cmds.push(Command::Polish(t)),
                        None => {},
                    }
                }
            },
            (PolishStage::Polishing, Event::Polished(result)) => {
                match result {
                    Some(t) => {
                        cmds.push(Command::WriteClipboard(t));
                        self.stage = PolishStage::WritingClipboard;
                    },
                    None => {
                        cmds.push(Command::Notify(Notice::ApiError));
                        cmds.push(Command::SetIcon(Icon::Default));
                        self.icon = Some(Icon::Default);
                        self.finish(guard);
                    },
                }
            },
            (PolishStage::WritingClipboard, Event::ClipboardWritten(ok)) => {
                if !ok {
                    cmds.push(Command::SetIcon(Icon::Default));
                    self.icon = Some(Icon::Default);
                    self.finish(guard);
                } else if self.paste_after {
                    cmds.push(Command::SubmitUndo);
                    self.stage = PolishStage::AwaitingUndo;
                } else {
                    cmds.push(Command::Notify(Notice::PolishSuccess));
                    cmds.push(Command::SetIcon(Icon::Default));
                    self.icon = Some(Icon::Default);
                    self.finish(guard);
                }
            },
            (PolishStage::AwaitingUndo, Event::UndoReplied(replied)) => {
                if replied {
                    cmds.push(Command::SubmitPaste);
                }
                cmds.push(Command::SetIcon(Icon::Default));
                self.icon = Some(Icon::Default);
                self.finish(guard);
            },
            _ => {},
        }
        proof {
            let c = polish_commands(f0, g0, event);
            assert(cmds@ =~= c);
            reveal_with_fuel(last_icon, 4);
        }
        cmds
    }

    fn finish(&mut self, guard: &mut CleansingGuard)
        ensures
            final(self).stage == PolishStage::Done,
            !final(self).holds_guard,
            final(self).paste_after == old(self).paste_after,
            final(self).icon == old(self).icon,
            !final(guard).held,
    {
        self.stage = PolishStage::Done;
        self.holds_guard = false;
        guard.release();
    }
}

} // verus!

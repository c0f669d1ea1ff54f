use vstd::prelude::*;

use crate::signals::{last_icon, Command, Event, Icon, Notice};

verus! {

/// The steps of the recording-toggle workflow on the trigger side.
#[derive(Clone, Copy, Debug, PartialEq, Eq, Structural)]
pub enum ToggleStage {
    Submitting,
    AwaitingReply,
    Transcribing,
    WritingClipboard,
    Done,
}

/// One run of the recording toggle: submit the toggle, then, when the reply
/// carries audio, have it transcribed and put on the clipboard, pasting it
/// when `auto_paste` is set (hotkey) and notifying otherwise (menu, tray).
#[derive(Clone, Copy, Debug)]
pub struct ToggleFlow {
    pub stage: ToggleStage,
    pub auto_paste: bool,
    /// The last icon this run has set, if any.
    pub icon: Option<Icon>,
}

pub open spec fn toggle_stage_rank(s: ToggleStage) -> nat {
    match s {
        ToggleStage::Submitting => 0,
        ToggleStage::AwaitingReply => 1,
        ToggleStage::Transcribing => 2,
        ToggleStage::WritingClipboard => 3,
        ToggleStage::Done => 4,
    }
}

/// Whether the workflow, at stage `s`, is waiting for event `e`.
pub open spec fn toggle_accepts(s: ToggleStage, e: Event) -> bool {
    match s {
        ToggleStage::Submitting => e is Submitted,
        ToggleStage::AwaitingReply => e is ToggleReplied,
        ToggleStage::Transcribing => e is Transcribed,
        ToggleStage::WritingClipboard => e is ClipboardWritten,
        ToggleStage::Done => false,
    }
}

/// The commands issued on event `e`.
pub open spec fn toggle_commands(f: ToggleFlow, e: Event) -> Seq<Command> {
    if !toggle_accepts(f.stage, e) {
        seq![]
    } else {
        match e {
            Event::ToggleReplied(None) => seq![Command::SetIcon(Icon::Default)],
            Event::ToggleReplied(Some(bytes)) => if bytes@.len() == 0 {
                seq![Command::SetIcon(Icon::Recording)]
            } else {
                seq![Command::SetIcon(Icon::Transcribing), Command::Transcribe(bytes)]
            },
            Event::Transcribed(None) => seq![
                Command::SetIcon(Icon::Default),
                Command::Notify(Notice::ApiError),
            ],
            Event::Transcribed(Some(t)) => seq![
                Command::SetIcon(Icon::Default),
                Command::WriteClipboard(t),
            ],
            Event::ClipboardWritten(ok) => if !ok {
                seq![]
            } else if f.auto_paste {
                seq![Command::SubmitPaste]
            } else {
                seq![Command::Notify(Notice::TranscribeSuccess)]
            },
            _ => seq![],
        }
    }
}

/// The stage after event `e`.
pub open spec fn toggle_next_stage(f: ToggleFlow, e: Event) -> ToggleStage {
    if !toggle_accepts(f.stage, e) {
        f.stage
    } else {
        match e {
            Event::Submitted(ok) => if ok {
                ToggleStage::AwaitingReply
            } else {
                ToggleStage::Done
            },
            Event::ToggleReplied(Some(bytes)) => if bytes@.len() == 0 {
                ToggleStage::Done
            } else {
                ToggleStage::Transcribing
            },
            Event::Transcribed(Some(_)) => ToggleStage::WritingClipboard,
            _ => ToggleStage::Done,
        }
    }
}

/// The workflow after event `e`.
pub open spec fn toggle_next(f: ToggleFlow, e: Event) -> ToggleFlow {
    ToggleFlow {
        stage: toggle_next_stage(f, e),
        auto_paste: f.auto_paste,
        icon: last_icon(f.icon, toggle_commands(f, e)),
    }
}

/// A run in a consistent state: the transcribing icon is shown exactly while
/// the transcription is awaited, and never left behind.
pub open spec fn toggle_wf(f: ToggleFlow) -> bool {
    &&& (f.stage == ToggleStage::Submitting || f.stage == ToggleStage::AwaitingReply)
        ==> f.icon.is_none()
    &&& f.stage == ToggleStage::Transcribing ==> f.icon == Some(Icon::Transcribing)
    &&& f.stage == ToggleStage::WritingClipboard ==> f.icon == Some(Icon::Default)
    &&& f.stage == ToggleStage::Done ==> f.icon != Some(Icon::Transcribing)
}

impl ToggleFlow {
    /// Starts a run; the first command is to submit the toggle.
    pub fn start(auto_paste: bool) -> (r: (ToggleFlow, Command))
        ensures
            r.0.stage == ToggleStage::Submitting,
            r.0.auto_paste == auto_paste,
            r.0.icon.is_none(),
            toggle_wf(r.0),
            r.1 is SubmitToggle,
    {
        (ToggleFlow { stage: ToggleStage::Submitting, auto_paste, icon: None }, Command::SubmitToggle)
    }

    pub fn is_done(&self) -> (r: bool)
        ensures
            r == (self.stage == ToggleStage::Done),
    {
        match self.stage {
            ToggleStage::Done => true,
            _ => false,
        }
    }

    /// Advances the run on what came of its last command and returns the
    /// commands to perform next, in order. A failed submission ends the run.
    /// An empty reply means a recording started; a closed reply channel means
    /// the stop failed and restores the default icon; audio is sent for
    /// transcription under the transcribing icon, which is replaced by the
    /// default one whatever the service answers. An event the run is not
    /// waiting for changes nothing.
    pub fn step(&mut self, event: Event) -> (r: Vec<Command>)
        requires
            toggle_wf(*old(self)),
        ensures
            r@ == toggle_commands(*old(self), event),
            *final(self) == toggle_next(*old(self), event),
            toggle_wf(*final(self)),
    {
        let mut cmds: Vec<Command> = Vec::new();
        let ghost f0 = *self;
        match (self.stage, event) {
            (ToggleStage::Submitting, Event::Submitted(ok)) => {
                self.stage = if ok {
                    ToggleStage::AwaitingReply
                } else {
                    ToggleStage::Done
                };
            },
            (ToggleStage::AwaitingReply, Event::ToggleReplied(reply)) => {
                match reply {
                    None => {
                        cmds.push(Command::SetIcon(Icon::Default));
                        self.icon = Some(Icon::Default);
                        self.stage = ToggleStage::Done;
                    },
                    Some(bytes) => {
                        if bytes.len() == 0 {
                            cmds.push(Command::SetIcon(Icon::Recording));
                            self.icon = Some(Icon::Recording);
                            self.stage = ToggleStage::Done;
                        } else {
                            cmds.push(Command::SetIcon(Icon::Transcribing));
                            cmds.push(Command::Transcribe(bytes));
                            self.icon = Some(Icon::Transcribing);
                            self.stage = ToggleStage::Transcribing;
                        }
                    },
                }
            },
            (ToggleStage::Transcribing, Event::Transcribed(result)) => {
                cmds.push(Command::SetIcon(Icon::Default));
                self.icon = Some(Icon::Default);
                match result {
                    None => {
                        cmds.push(Command::Notify(Notice::ApiError));
                        self.stage = ToggleStage::Done;
                    },
                    Some(t) => {
                        cmds.push(Command::WriteClipboard(t));
                        self.stage = ToggleStage::WritingClipboard;
                    },
                }
            },
            (ToggleStage::WritingClipboard, Event::ClipboardWritten(ok)) => {
                if ok {
                    if self.auto_paste {
                        cmds.push(Command::SubmitPaste);
                    } else {
                        cmds.push(Command::Notify(Notice::TranscribeSuccess));
                    }
                }
                self.stage = ToggleStage::Done;
            },
            _ => {},
        }
        proof {
            assert(cmds@ =~= toggle_commands(f0, event));
            reveal_with_fuel(last_icon, 3);
        }
        cmds
    }
}

} // verus!

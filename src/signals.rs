use vstd::prelude::*;

verus! {

/// The phase shown by the status indicator.
#[derive(Clone, Copy, Debug, PartialEq, Eq, Structural)]
pub enum Icon {
    Default,
    Recording,
    Transcribing,
    Cleansing,
}

/// The notifications the workflows can raise.
#[derive(Clone, Copy, Debug, PartialEq, Eq, Structural)]
pub enum Notice {
    StartPolishing,
    PolishSuccess,
    TranscribeSuccess,
    ApiError,
    EmptyClipboard,
}

/// An outside step that a trigger-side workflow asks its driver to perform.
#[derive(Clone, Debug, PartialEq, Eq)]
pub enum Command {
    /// Submit a recording toggle to the resource owner and wait for its reply.
    SubmitToggle,
    /// Submit an undo to the resource owner and wait for its reply.
    SubmitUndo,
    /// Submit a paste to the resource owner; nothing waits on it.
    SubmitPaste,
    ReadClipboard,
    WriteClipboard(String),
    /// Send recorded audio to the transcription service.
    Transcribe(Vec<u8>),
    /// Send text to the polish service.
    Polish(String),
    SetIcon(Icon),
    Notify(Notice),
}

/// What came of the last command that a workflow issued.
#[derive(Clone, Debug, PartialEq, Eq)]
pub enum Event {
    /// Whether the task reached the resource owner's channel.
    Submitted(bool),
    /// The reply to a recording toggle, `None` when the reply channel closed.
    ToggleReplied(Option<Vec<u8>>),
    /// The reply to an undo, `false` when the reply channel closed.
    UndoReplied(bool),
    /// The clipboard text, `None` when it could not be read.
    ClipboardRead(Option<String>),
    /// Whether the clipboard write succeeded.
    ClipboardWritten(bool),
    /// The transcription, `None` on any service failure.
    Transcribed(Option<String>),
    /// The polished text, `None` on any service failure.
    Polished(Option<String>),
}

/// The last icon set by a run of commands, starting from `prev`.
pub open spec fn last_icon(prev: Option<Icon>, cmds: Seq<Command>) -> Option<Icon>
    decreases cmds.len(),
{
    if cmds.len() == 0 {
        prev
    } else {
        match cmds.last() {
            Command::SetIcon(i) => Some(i),
            _ => last_icon(prev, cmds.drop_last()),
        }
    }
}

} // verus!

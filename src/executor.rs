use vstd::prelude::*;

use crate::media::MediaPlayer;
use crate::recorder::{AudioFormat, AudioRecorder, Recording};
use crate::signals::Icon;

verus! {

/// A request to the resource owner. The driver pairs each one with its reply
/// channel, if it has one.
#[derive(Clone, Copy, Debug, PartialEq, Eq, Structural)]
pub enum Task {
    ToggleRecording,
    PasteFromClipboard,
    UndoText,
}

/// An effect on an owned resource or on the indicator, performed by the
/// driver in the order given.
#[derive(Clone, Copy, Debug, PartialEq, Eq, Structural)]
pub enum Action {
    PausePlayer,
    ResumePlayer,
    SetIcon(Icon),
    /// Open a new capture stream on a cleared sample buffer.
    StartCapture,
    /// Drop the capture stream and drain the sample buffer, then hand what
    /// was drained to `finish_stop`.
    StopCapture,
    Paste,
    Undo,
}

/// What the driver must find out before a task can be decided.
#[derive(Clone, Copy, Debug, PartialEq, Eq, Structural)]
pub enum Need {
    Nothing,
    /// Ask the media player whether it is running and whether it is playing.
    PlayerProbe,
}

/// What the driver found out for a task.
#[derive(Clone, Copy, Debug, PartialEq, Eq, Structural)]
pub enum Observation {
    Nothing,
    Player { is_running: bool, is_playing: bool },
}

/// What goes back over a task's reply channel. `Nothing` means the channel is
/// dropped without a value.
#[derive(Clone, Debug, PartialEq, Eq)]
pub enum Reply {
    Nothing,
    /// A recording has just started.
    Started,
    /// The reply waits for the stopped capture: see `finish_stop`.
    AfterCapture,
    /// A recording has just stopped with these samples.
    Recorded(Recording),
    /// The undo was attempted.
    Undone,
}

/// The decision on one task: the effects to perform, then the reply.
#[derive(Clone, Debug, PartialEq, Eq)]
pub struct Handled {
    pub actions: Vec<Action>,
    pub reply: Reply,
}

/// The state owned by the single-threaded resource owner.
#[derive(Debug)]
pub struct ResourceOwner {
    pub recorder: AudioRecorder,
    pub media: MediaPlayer,
    /// A recording was stopped and its reply waits for the drained capture.
    pub stop_pending: bool,
}

/// The owner as it is at start: not recording, nothing paused, no stop
/// pending.
pub open spec fn idle_owner() -> ResourceOwner {
    ResourceOwner {
        recorder: AudioRecorder { is_recording: false },
        media: MediaPlayer { was_playing: false },
        stop_pending: false,
    }
}

pub open spec fn need_spec(s: ResourceOwner, t: Task) -> Need {
    if t == Task::ToggleRecording && !s.recorder.is_recording {
        Need::PlayerProbe
    } else {
        Need::Nothing
    }
}

/// A probe that found the player running and playing.
pub open spec fn finds_playing(o: Observation) -> bool {
    match o {
        Observation::Player { is_running, is_playing } => is_running && is_playing,
        _ => false,
    }
}

/// The state after a task.
pub open spec fn owner_next(s: ResourceOwner, t: Task, o: Observation) -> ResourceOwner {
    match t {
        Task::ToggleRecording => if s.recorder.is_recording {
            ResourceOwner {
                recorder: AudioRecorder { is_recording: false },
                media: s.media,
                stop_pending: true,
            }
        } else {
            ResourceOwner {
                recorder: AudioRecorder { is_recording: true },
                media: MediaPlayer { was_playing: s.media.was_playing || finds_playing(o) },
                stop_pending: s.stop_pending,
            }
        },
        _ => s,
    }
}

/// The effects of a task, in order.
pub open spec fn owner_actions(s: ResourceOwner, t: Task, o: Observation) -> Seq<Action> {
    match t {
        Task::ToggleRecording => if s.recorder.is_recording {
            seq![Action::SetIcon(Icon::Default), Action::StopCapture]
        } else {
            if finds_playing(o) {
                seq![Action::PausePlayer, Action::SetIcon(Icon::Recording), Action::StartCapture]
            } else {
                seq![Action::SetIcon(Icon::Recording), Action::StartCapture]
            }
        },
        Task::PasteFromClipboard => seq![Action::Paste],
        Task::UndoText => seq![Action::Undo],
    }
}

/// The reply to a task.
pub open spec fn owner_reply(s: ResourceOwner, t: Task) -> Reply {
    match t {
        Task::ToggleRecording => if s.recorder.is_recording {
            Reply::AfterCapture
        } else {
            Reply::Started
        },
        Task::PasteFromClipboard => Reply::Nothing,
        Task::UndoText => Reply::Undone,
    }
}

/// A drained capture from which a recording can be made.
pub open spec fn has_audio(format: Option<AudioFormat>, samples: Seq<i16>) -> bool {
    format.is_some() && samples.len() > 0
}

/// The state once a pending stop is finished: nothing paused any more.
pub open spec fn finish_next(s: ResourceOwner) -> ResourceOwner {
    if s.stop_pending {
        ResourceOwner {
            recorder: s.recorder,
            media: MediaPlayer { was_playing: false },
            stop_pending: false,
        }
    } else {
        s
    }
}

/// The effects of finishing a stop: the player resumes if it was paused.
pub open spec fn finish_actions(s: ResourceOwner) -> Seq<Action> {
    if s.stop_pending && s.media.was_playing {
        seq![Action::ResumePlayer]
    } else {
        seq![]
    }
}

/// The reply that finishes a stop: the drained samples when there is a
/// pending stop and audio to make a recording of, else no reply at all.
pub open spec fn finish_reply(s: ResourceOwner, format: Option<AudioFormat>, samples: Seq<i16>, r: Reply) -> bool {
    if s.stop_pending && has_audio(format, samples) {
        r matches Reply::Recorded(rec) && rec.format == format.unwrap() && rec.samples@ == samples
    } else {
        r is Nothing
    }
}

impl ResourceOwner {
    pub fn new() -> (r: Self)
        ensures
            r == idle_owner(),
    {
        ResourceOwner { recorder: AudioRecorder::new(), media: MediaPlayer::new(), stop_pending: false }
    }

    pub fn is_recording(&self) -> (r: bool)
        ensures
            r == self.recorder.is_recording,
    {
        self.recorder.is_recording
    }

    /// What the driver must find out before handing `task` to `handle_task`:
    /// a player probe before a recording starts.
    pub fn need_for(&self, task: Task) -> (r: Need)
        ensures
            r == need_spec(*self, task),
    {
        match task {
            Task::ToggleRecording => if self.recorder.is_recording {
                Need::Nothing
            } else {
                Need::PlayerProbe
            },
            _ => Need::Nothing,
        }
    }

    /// Decides one dequeued task. A toggle from idle pauses the player if the
    /// probe found it playing, shows the recording icon, starts the capture
    /// and replies `Started`. A toggle while recording shows the default
    /// icon, then stops the capture; its reply is decided by `finish_stop`
    /// on what the capture held. A paste pastes; an undo undoes, then
    /// replies.
    pub fn handle_task(&mut self, task: Task, obs: Observation) -> (r: Handled)
        ensures
            *final(self) == owner_next(*old(self), task, obs),
            r.actions@ == owner_actions(*old(self), task, obs),
            r.reply == owner_reply(*old(self), task),
    {
        let mut actions: Vec<Action> = Vec::new();
        match task {
            Task::ToggleRecording => {
                if !self.recorder.is_recording {
                    let (is_running, is_playing) = match obs {
                        Observation::Player { is_running, is_playing } => (is_running, is_playing),
                        _ => (false, false),
                    };
                    if self.media.pause_spotify(is_running, is_playing) {
                        actions.push(Action::PausePlayer);
                    }
                    actions.push(Action::SetIcon(Icon::Recording));
                    self.recorder.start_recording();
                    actions.push(Action::StartCapture);
                    proof {
                        if finds_playing(obs) {
                            assert(actions@ =~= seq![Action::PausePlayer, Action::SetIcon(Icon::Recording), Action::StartCapture]);
                        } else {
                            assert(actions@ =~= seq![Action::SetIcon(Icon::Recording), Action::StartCapture]);
                        }
                    }
                    Handled { actions, reply: Reply::Started }
                } else {
                    actions.push(Action::SetIcon(Icon::Default));
                    self.recorder.stop_recording();
                    actions.push(Action::StopCapture);
                    self.stop_pending = true;
                    proof {
                        assert(actions@ =~= seq![Action::SetIcon(Icon::Default), Action::StopCapture]);
                    }
                    Handled { actions, reply: Reply::AfterCapture }
                }
            },
            Task::PasteFromClipboard => {
                actions.push(Action::Paste);
                proof {
                    assert(actions@ =~= seq![Action::Paste]);
                }
                Handled { actions, reply: Reply::Nothing }
            },
            Task::UndoText => {
                actions.push(Action::Undo);
                proof {
                    assert(actions@ =~= seq![Action::Undo]);
                }
                Handled { actions, reply: Reply::Undone }
            },
        }
    }

    /// Finishes a stopped recording once the capture is drained: resumes the
    /// player if a pause interrupted it, and replies with the recording, or
    /// drops the reply when nothing usable was captured. Without a pending
    /// stop it does nothing and drops the reply.
    pub fn finish_stop(&mut self, format: Option<AudioFormat>, samples: Vec<i16>) -> (r: Handled)
        ensures
            *final(self) == finish_next(*old(self)),
            r.actions@ == finish_actions(*old(self)),
            finish_reply(*old(self), format, samples@, r.reply),
    {
        let mut actions: Vec<Action> = Vec::new();
        if !self.stop_pending {
            return Handled { actions, reply: Reply::Nothing };
        }
        self.stop_pending = false;
        let recording = AudioRecorder::take_recording(format, samples);
        if self.media.play_spotify() {
            actions.push(Action::ResumePlayer);
        }
        proof {
            if old(self).media.was_playing {
                assert(actions@ =~= seq![Action::ResumePlayer]);
            } else {
                assert(actions@ =~= seq![]);
            }
        }
        let reply = match recording {
            Some(rec) => Reply::Recorded(rec),
            None => Reply::Nothing,
        };
        Handled { actions, reply }
    }
}

} // verus!

use vstd::prelude::*;

use crate::executor::{
    finds_playing, finish_actions, finish_next, finish_reply, has_audio, idle_owner, owner_actions,
    owner_next, owner_reply, Action, Observation, Reply, ResourceOwner, Task,
};
use crate::recorder::AudioFormat;
use crate::polish::{
    polish_accepts, polish_commands, polish_guard_after, polish_next, polish_next_stage,
    polish_stage_rank, polish_wf, readable_text, PolishFlow, PolishStage,
};
use crate::signals::{last_icon, Command, Event, Icon};
use crate::trigger::{
    toggle_accepts, toggle_next, toggle_stage_rank, toggle_wf, ToggleFlow, ToggleStage,
};

verus! {

/// One recording toggle handled to its end: a start, or a stop followed by
/// the finishing of its reply.
pub open spec fn toggle_round(s: ResourceOwner, o: Observation) -> ResourceOwner {
    if s.recorder.is_recording {
        finish_next(owner_next(s, Task::ToggleRecording, o))
    } else {
        owner_next(s, Task::ToggleRecording, o)
    }
}

/// The owner after a run of recording toggles, one observation each.
pub open spec fn after_toggles(s: ResourceOwner, obs: Seq<Observation>) -> ResourceOwner
    decreases obs.len(),
{
    if obs.len() == 0 {
        s
    } else {
        toggle_round(after_toggles(s, obs.drop_last()), obs.last())
    }
}

/// From a fresh owner, recording toggles alternate: after `i` of them the
/// owner records exactly when `i` is odd and no stop is pending; toggle `i`
/// replies `Started` exactly when `i` is even, and otherwise leaves its reply
/// to the finishing of the stop, which is a non-empty recording or no reply
/// at all.
pub proof fn law_toggles_alternate(
    obs: Seq<Observation>,
    i: int,
    format: Option<AudioFormat>,
    samples: Seq<i16>,
    r: Reply,
)
    requires
        0 <= i < obs.len(),
        finish_reply(
            owner_next(after_toggles(idle_owner(), obs.take(i)), Task::ToggleRecording, obs[i]),
            format,
            samples,
            r,
        ),
    ensures
        after_toggles(idle_owner(), obs.take(i)).recorder.is_recording == (i % 2 == 1),
        !after_toggles(idle_owner(), obs.take(i)).stop_pending,
        after_toggles(idle_owner(), obs.take(i + 1)).recorder.is_recording == (i % 2 == 0),
        (owner_reply(after_toggles(idle_owner(), obs.take(i)), Task::ToggleRecording)
            is Started) == (i % 2 == 0),
        i % 2 == 1 ==> owner_reply(after_toggles(idle_owner(), obs.take(i)), Task::ToggleRecording)
            is AfterCapture,
        i % 2 == 1 ==> (r is Nothing || (r matches Reply::Recorded(rec) && rec.samples@.len() > 0)),
{
    lemma_toggles_parity(obs, i);
    lemma_toggles_parity(obs, i + 1);
}

proof fn lemma_toggles_parity(obs: Seq<Observation>, i: int)
    requires
        0 <= i <= obs.len(),
    ensures
        after_toggles(idle_owner(), obs.take(i)).recorder.is_recording == (i % 2 == 1),
        !after_toggles(idle_owner(), obs.take(i)).stop_pending,
    decreases i,
{
    if i > 0 {
        lemma_toggles_parity(obs, i - 1);
        assert(obs.take(i).drop_last() =~= obs.take(i - 1));
    }
}

/// A stop never replies with an empty recording: without a usable capture
/// (no samples, or no format), or without a recording that was started and
/// stopped, the reply is dropped.
pub proof fn law_stop_without_audio_drops_reply(
    s: ResourceOwner,
    format: Option<AudioFormat>,
    samples: Seq<i16>,
    r: Reply,
)
    requires
        finish_reply(s, format, samples, r),
    ensures
        !has_audio(format, samples) ==> r is Nothing,
        !s.stop_pending ==> r is Nothing,
        r matches Reply::Recorded(rec) ==> rec.samples@.len() > 0,
        !(r is Started),
{
}

/// Of two runs that read polishable text back to back while the first is in
/// flight, the second finds the guard held, ends at once and issues no
/// command; the first keeps the guard.
pub proof fn law_single_flight(a: PolishFlow, b: PolishFlow, guard_held: bool, ea: Event, eb: Event)
    requires
        polish_wf(a),
        polish_wf(b),
        a.stage == PolishStage::ReadingClipboard,
        b.stage == PolishStage::ReadingClipboard,
        readable_text(ea),
        readable_text(eb),
        !guard_held,
    ensures
        polish_next(a, guard_held, ea).stage == PolishStage::Polishing,
        polish_guard_after(a, guard_held, ea),
        polish_commands(b, polish_guard_after(a, guard_held, ea), eb) =~= seq![],
        polish_next(b, polish_guard_after(a, guard_held, ea), eb).stage == PolishStage::Done,
        polish_guard_after(b, polish_guard_after(a, guard_held, ea), eb),
{
}

/// The guard is held by at most one run at a time. Two runs that each hold
/// the guard only while it is set, and never both at once (as runs fresh from
/// `start` do), keep that so whatever step either of them takes: a run takes
/// the guard only when it is free, so only when the other run does not hold
/// it.
pub proof fn law_guard_exclusive(a: PolishFlow, b: PolishFlow, guard_held: bool, e: Event)
    requires
        polish_wf(a),
        polish_wf(b),
        a.holds_guard ==> guard_held,
        b.holds_guard ==> guard_held,
        !(a.holds_guard && b.holds_guard),
    ensures
        !(polish_next(a, guard_held, e).holds_guard && b.holds_guard),
        polish_next(a, guard_held, e).holds_guard ==> polish_guard_after(a, guard_held, e),
        b.holds_guard ==> polish_guard_after(a, guard_held, e),
{
}

/// Every step of a run keeps it consistent and moves it strictly forward
/// unless the event is not one it waits for; so every run ends, and a run
/// that has ended holds no guard, has released the one it held, and has left
/// the default icon if it set any.
pub proof fn law_polish_cleanup(f: PolishFlow, guard_held: bool, e: Event)
    requires
        polish_wf(f),
        f.holds_guard ==> guard_held,
    ensures
        polish_wf(polish_next(f, guard_held, e)),
        polish_accepts(f.stage, e) ==> polish_stage_rank(polish_next(f, guard_held, e).stage)
            > polish_stage_rank(f.stage),
        polish_next(f, guard_held, e).stage == PolishStage::Done ==> {
            &&& !polish_next(f, guard_held, e).holds_guard
            &&& (f.holds_guard ==> !polish_guard_after(f, guard_held, e))
            &&& (polish_next(f, guard_held, e).icon.is_none() || polish_next(f, guard_held, e).icon
                == Some(Icon::Default))
        },
{
    reveal_with_fuel(last_icon, 4);
}

/// Every step of a recording toggle keeps it consistent and moves it strictly
/// forward unless the event is not one it waits for; so every run ends, and
/// a run that showed the transcribing icon has replaced it when it ends.
pub proof fn law_toggle_cleanup(f: ToggleFlow, e: Event)
    requires
        toggle_wf(f),
    ensures
        toggle_wf(toggle_next(f, e)),
        toggle_accepts(f.stage, e) ==> toggle_stage_rank(toggle_next(f, e).stage)
            > toggle_stage_rank(f.stage),
        toggle_next(f, e).stage == ToggleStage::Done ==> toggle_next(f, e).icon != Some(
            Icon::Transcribing,
        ),
{
    reveal_with_fuel(last_icon, 3);
}

/// The paste of a polish run is issued only while the run waits for its undo
/// and only on an undo reply that was actually received, and the undo is
/// issued only as the single command that starts that wait.
pub proof fn law_paste_after_undo(f: PolishFlow, guard_held: bool, e: Event)
    ensures
        polish_commands(f, guard_held, e).contains(Command::SubmitPaste) ==> (f.stage
            == PolishStage::AwaitingUndo && e == Event::UndoReplied(true)),
        polish_next_stage(f, guard_held, e) == PolishStage::AwaitingUndo && f.stage
            != PolishStage::AwaitingUndo ==> polish_commands(f, guard_held, e) =~= seq![
            Command::SubmitUndo,
        ],
{
    let c = polish_commands(f, guard_held, e);
    if c.contains(Command::SubmitPaste) {
        let k = choose|k: int| 0 <= k < c.len() && c[k] == Command::SubmitPaste;
        assert(c[k] == Command::SubmitPaste);
    }
}

/// Starting from an owner that is idle, has paused nothing and has no stop
/// pending, a toggle pauses the player exactly when the probe found it
/// playing; the next toggle neither pauses nor resumes, and finishing its
/// stop resumes the player exactly then, leaving nothing recorded as paused.
pub proof fn law_resume_iff_paused(s: ResourceOwner, probe: Observation, stop: Observation)
    requires
        !s.recorder.is_recording,
        !s.media.was_playing,
        !s.stop_pending,
    ensures
        owner_actions(s, Task::ToggleRecording, probe).contains(Action::PausePlayer)
            == finds_playing(probe),
        !owner_actions(owner_next(s, Task::ToggleRecording, probe), Task::ToggleRecording, stop).contains(
            Action::PausePlayer,
        ),
        !owner_actions(owner_next(s, Task::ToggleRecording, probe), Task::ToggleRecording, stop).contains(
            Action::ResumePlayer,
        ),
        finish_actions(
            owner_next(owner_next(s, Task::ToggleRecording, probe), Task::ToggleRecording, stop),
        ).contains(Action::ResumePlayer) == finds_playing(probe),
        !finish_next(
            owner_next(owner_next(s, Task::ToggleRecording, probe), Task::ToggleRecording, stop),
        ).media.was_playing,
{
    let a = owner_actions(s, Task::ToggleRecording, probe);
    let s1 = owner_next(s, Task::ToggleRecording, probe);
    let b = owner_actions(s1, Task::ToggleRecording, stop);
    let c = finish_actions(owner_next(s1, Task::ToggleRecording, stop));
    assert(forall|k: int| 0 <= k < b.len() ==> b[k] != Action::PausePlayer && b[k] != Action::ResumePlayer);
    if finds_playing(probe) {
        assert(a[0] == Action::PausePlayer);
        assert(c[0] == Action::ResumePlayer);
    } else {
        assert(forall|k: int| 0 <= k < a.len() ==> a[k] != Action::PausePlayer);
        assert(c =~= seq![]);
    }
}

} // verus!

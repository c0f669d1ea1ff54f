//! Decision core of a push-to-talk transcription utility.
//!
//! The thread-confined resources (capture device, input injection, media
//! player) are driven by a single resource owner, modelled here by
//! [`ResourceOwner`]; the trigger-side workflows (recording toggle and
//! clipboard polish) are explicit state machines that tell their driver which
//! outside step to perform next and are told what came of it.
mod dispatch;
mod executor;
mod laws;
mod media;
mod polish;
mod probe;
mod recorder;
mod signals;
mod trigger;

pub use dispatch::{
    hotkey_dispatch, hotkey_dispatch_spec, menu_dispatch, menu_dispatch_spec, tray_dispatch,
    tray_dispatch_spec, Dispatch, Hotkey, MouseButton, MENU_CLEANSE, MENU_QUIT,
    MENU_TOGGLE_RECORDING,
};
pub use executor::{
    finds_playing, finish_actions, finish_next, finish_reply, has_audio, idle_owner, need_spec,
    owner_actions, owner_next, owner_reply, Action, Handled, Need, Observation, Reply,
    ResourceOwner, Task,
};
pub use laws::{
    after_toggles, toggle_round, law_guard_exclusive, law_paste_after_undo, law_polish_cleanup, law_resume_iff_paused,
    law_single_flight, law_stop_without_audio_drops_reply, law_toggle_cleanup, law_toggles_alternate,
};
pub use media::MediaPlayer;
pub use polish::{
    polish_accepts, polish_commands, polish_guard_after, polish_next, polish_next_stage,
    polish_stage_rank, polish_wf, readable_text, CleansingGuard, PolishFlow, PolishStage,
};
pub use probe::{
    is_space, output_is, reports_playing, reports_running, trim_end, trim_start, trimmed,
    PLAYING_WORD, RUNNING_WORD,
};
pub use recorder::{AudioFormat, AudioRecorder, Recording};
pub use signals::{last_icon, Command, Event, Icon, Notice};
pub use trigger::{
    toggle_accepts, toggle_commands, toggle_next, toggle_next_stage, toggle_stage_rank, toggle_wf,
    ToggleFlow, ToggleStage,
};

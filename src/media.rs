use vstd::prelude::*;

verus! {

/// Tracks whether the outside media player was interrupted by a recording,
/// so that playback is resumed only when it was actually paused.
#[derive(Debug)]
pub struct MediaPlayer {
    pub was_playing: bool,
}

impl MediaPlayer {
    /// A player state that has paused nothing.
    pub fn new() -> (r: Self)
        ensures
            !r.was_playing,
    {
        MediaPlayer { was_playing: false }
    }

    pub fn was_playing(&self) -> (r: bool)
        ensures
            r == self.was_playing,
    {
        self.was_playing
    }

    /// Decides, from a probe of the player, whether a pause command is to be
    /// issued: exactly when the player is running and playing. Issuing one
    /// records that playback was interrupted.
    pub fn pause_spotify(&mut self, is_running: bool, is_playing: bool) -> (issue_pause: bool)
        ensures
            issue_pause == (is_running && is_playing),
            final(self).was_playing == (old(self).was_playing || issue_pause),
    {
        let issue_pause = is_running && is_playing;
        if issue_pause {
            self.was_playing = true;
        }
        issue_pause
    }

    /// Decides whether a resume command is to be issued: exactly when a
    /// prior pause interrupted playback. The record is cleared either way.
    pub fn play_spotify(&mut self) -> (issue_resume: bool)
        ensures
            issue_resume == old(self).was_playing,
            !final(self).was_playing,
    {
        let issue_resume = self.was_playing;
        self.was_playing = false;
        issue_resume
    }
}

} // verus!

//! Background playback decisions: the play/pause flag of the native player, what each
//! command does to the player's sink, and which lock-screen controls reach the player.
//! Volumes and positions (floating point) stay with the caller.

use vstd::prelude::*;
use crate::text::same_text;

verus! {

/// A command to the audio thread (its volume, URL and position are the caller's).
#[derive(Debug, PartialEq, Eq, Structural, Clone, Copy)]
pub enum AudioCommand {
    /// Start a new track, replacing whatever was playing.
    Play,
    Pause,
    Resume,
    /// Change the volume.
    Volume,
    Stop,
}

/// The paused flag kept beside the audio thread.
#[derive(Debug)]
pub struct PlaybackFlag {
    pub paused: bool,
}

/// Toggling: the flag flips, and the command is Pause when it becomes paused, else Resume.
pub open spec fn toggle_next(paused: bool) -> (bool, AudioCommand) {
    if !paused {
        (true, AudioCommand::Pause)
    } else {
        (false, AudioCommand::Resume)
    }
}

impl PlaybackFlag {
    pub fn new() -> (r: Self)
        ensures
            !r.paused,
    {
        PlaybackFlag { paused: false }
    }

    /// Starting a track: not paused any more.
    pub fn play(&mut self) -> (c: AudioCommand)
        ensures
            !final(self).paused,
            c == AudioCommand::Play,
    {
        self.paused = false;
        AudioCommand::Play
    }

    /// Play/pause toggle; see [`toggle_next`].
    pub fn toggle_play_pause(&mut self) -> (c: AudioCommand)
        ensures
            (final(self).paused, c) == toggle_next(old(self).paused),
    {
        let now_paused = !self.paused;
        self.paused = now_paused;
        if now_paused {
            AudioCommand::Pause
        } else {
            AudioCommand::Resume
        }
    }

    /// A volume change leaves the flag as it is.
    pub fn set_volume(&self) -> (c: AudioCommand)
        ensures
            c == AudioCommand::Volume,
    {
        AudioCommand::Volume
    }

    /// Stopping: not paused any more.
    pub fn stop(&mut self) -> (c: AudioCommand)
        ensures
            !final(self).paused,
            c == AudioCommand::Stop,
    {
        self.paused = false;
        AudioCommand::Stop
    }
}

/// Toggling twice restores the flag, and the two commands are a Pause and a Resume.
pub proof fn lemma_toggle_twice(paused: bool)
    ensures
        toggle_next(toggle_next(paused).0).0 == paused,
        toggle_next(paused).1 != toggle_next(toggle_next(paused).0).1,
        toggle_next(paused).1 == AudioCommand::Pause || toggle_next(paused).1 == AudioCommand::Resume,
{
}

/// What a command does to the audio thread's sink.
#[derive(Debug, PartialEq, Eq, Structural, Clone, Copy)]
pub enum SinkEffect {
    /// Fetch, decode and open a new sink; once it is open it takes the place of the
    /// current one (if the flag says there is one), which is dropped and so stops. If any
    /// step fails, the current sink stays as it is.
    Open { replaces: bool },
    /// Apply the command to the current sink.
    Apply,
    /// There is no sink: nothing to do.
    Ignore,
    /// Stop the current sink and drop it.
    Close,
}

/// Whether the audio thread holds a sink.
#[derive(Debug)]
pub struct SinkSlot {
    pub present: bool,
}

/// A command's effect on a slot: a new track opens a sink that replaces the current one
/// once open; pause, resume and volume apply to a sink if there is one; stop drops it.
pub open spec fn sink_effect(present: bool, c: AudioCommand) -> (bool, SinkEffect) {
    match c {
        AudioCommand::Play => (present, SinkEffect::Open { replaces: present }),
        AudioCommand::Stop => (false, if present { SinkEffect::Close } else { SinkEffect::Ignore }),
        _ => (present, if present { SinkEffect::Apply } else { SinkEffect::Ignore }),
    }
}

/// After an open: a new sink fills the slot; a failure leaves it as it was.
pub open spec fn sink_opened(present: bool, ok: bool) -> bool {
    present || ok
}

impl SinkSlot {
    pub fn new() -> (r: Self)
        ensures
            !r.present,
    {
        SinkSlot { present: false }
    }

    /// Answers a command; see [`sink_effect`]. After an open, [`SinkSlot::opened`] reports
    /// whether the new sink took the slot.
    pub fn command(&mut self, c: AudioCommand) -> (e: SinkEffect)
        ensures
            (final(self).present, e) == sink_effect(old(self).present, c),
    {
        match c {
            AudioCommand::Play => SinkEffect::Open { replaces: self.present },
            AudioCommand::Stop => {
                let had = self.present;
                self.present = false;
                if had { SinkEffect::Close } else { SinkEffect::Ignore }
            },
            _ => {
                if self.present { SinkEffect::Apply } else { SinkEffect::Ignore }
            },
        }
    }

    /// Whether opening the new sink (fetch, decode, sink) succeeded: a new sink fills the
    /// slot; a failure leaves it as it was.
    pub fn opened(&mut self, ok: bool)
        ensures
            final(self).present == sink_opened(old(self).present, ok),
    {
        if ok {
            self.present = true;
        }
    }
}

/// A new track wins once it is open: a successful open fills the slot (dropping the track
/// that played); a failed one leaves what played. A stop then empties the slot.
pub proof fn lemma_new_track_wins(present: bool)
    ensures
        sink_effect(present, AudioCommand::Play) == (present, SinkEffect::Open { replaces: present }),
        sink_opened(sink_effect(present, AudioCommand::Play).0, true),
        sink_opened(sink_effect(present, AudioCommand::Play).0, false) == present,
        sink_effect(sink_opened(present, true), AudioCommand::Stop) == (false, SinkEffect::Close),
{
}

/// Pause, resume and volume act alike on the slot: with a sink each applies to it and
/// keeps it, without one each does nothing. So a track that was opened and paused is
/// played again by a resume.
pub proof fn lemma_controls_act_alike(present: bool)
    ensures
        sink_effect(present, AudioCommand::Pause) == sink_effect(present, AudioCommand::Resume),
        sink_effect(present, AudioCommand::Resume) == sink_effect(present, AudioCommand::Volume),
        present ==> sink_effect(present, AudioCommand::Resume) == (true, SinkEffect::Apply),
        !present ==> sink_effect(present, AudioCommand::Resume) == (false, SinkEffect::Ignore),
        ({
            let opened = sink_opened(sink_effect(false, AudioCommand::Play).0, true);
            let paused = sink_effect(opened, AudioCommand::Pause);
            &&& paused == (true, SinkEffect::Apply)
            &&& sink_effect(paused.0, AudioCommand::Resume) == (true, SinkEffect::Apply)
        }),
{
}

/// A lock-screen control as it reaches the native player.
#[derive(Debug, PartialEq, Eq, Structural, Clone, Copy)]
pub enum ControlAction {
    TogglePlayPause,
    /// Set the volume to the value that came with the control.
    SetVolume,
    /// Not for the native player ("seek" is not supported by its sink; "next"/"prev" are
    /// handled by the page).
    Nothing,
}

/// Which control reaches the native player: `"playPause"` toggles, `"volume"` with a value
/// sets the volume, anything else is left to the page.
pub open spec fn control_action(action: Seq<char>, has_value: bool) -> ControlAction {
    if action == "playPause"@ {
        ControlAction::TogglePlayPause
    } else if action == "volume"@ && has_value {
        ControlAction::SetVolume
    } else {
        ControlAction::Nothing
    }
}

/// See [`control_action`].
pub fn player_control(action: &str, has_value: bool) -> (r: ControlAction)
    ensures
        r == control_action(action@, has_value),
{
    if same_text(action, "playPause") {
        ControlAction::TogglePlayPause
    } else if same_text(action, "volume") && has_value {
        ControlAction::SetVolume
    } else {
        ControlAction::Nothing
    }
}

} // verus!

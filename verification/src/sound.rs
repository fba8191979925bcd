//! Status sound cues for the recording lifecycle.

use vstd::prelude::*;

verus! {

/// Distinct sound cues for recording state transitions.
#[derive(Debug, Clone, Copy, PartialEq, Eq, Structural)]
pub enum SoundCue {
    ListeningStarted,
    ListeningStopped,
}

/// The built-in macOS system sound played for a cue.
pub open spec fn spec_system_sound_path(cue: SoundCue) -> Seq<char> {
    match cue {
        SoundCue::ListeningStarted => "/System/Library/Sounds/Pop.aiff"@,
        SoundCue::ListeningStopped => "/System/Library/Sounds/Glass.aiff"@,
    }
}

/// Maps a cue to a built-in macOS system sound asset.
pub fn system_sound_path(cue: SoundCue) -> (path: &'static str)
    ensures
        path@ == spec_system_sound_path(cue),
{
    match cue {
        SoundCue::ListeningStarted => "/System/Library/Sounds/Pop.aiff",
        SoundCue::ListeningStopped => "/System/Library/Sounds/Glass.aiff",
    }
}

} // verus!

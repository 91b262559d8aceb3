//! The cutscene: what the game remembers of the video and when it asks to
//! leave the cutscene again.

use vstd::prelude::*;
use crate::GameState;
use crate::player::Actions;

verus! {

/// The phase that follows the cutscene.
pub const CUTSCENE_NEXT_STATE: GameState = GameState::Menu;

/// Whether the video of the cutscene is running.
#[derive(Clone, Copy, Debug, PartialEq, Eq, Structural)]
pub enum VideoState {
    Playing,
    Ended,
}

impl Default for VideoState {
    fn default() -> (state: VideoState)
        ensures
            state == VideoState::Ended,
    {
        VideoState::Ended
    }
}

/// The video of the cutscene: where it comes from, the element of the page
/// that shows it, and whether it is playing.
#[derive(Clone, Debug)]
pub struct CutsceneVideo {
    pub src: String,
    pub element_id: String,
    pub is_playing: VideoState,
}

/// The state of a video that has or has not ended.
pub open spec fn video_state(ended: bool) -> VideoState {
    if ended {
        VideoState::Ended
    } else {
        VideoState::Playing
    }
}

/// What a video asks for: the next phase once it has ended.
pub open spec fn video_request(ended: bool) -> Option<GameState> {
    if ended {
        Some(CUTSCENE_NEXT_STATE)
    } else {
        None
    }
}

/// What the debug action asks for: the cutscene, if it is set.
pub open spec fn debug_request(actions: Actions) -> Option<GameState> {
    if actions.debug_play_cutscene {
        Some(GameState::PlayingCutScene)
    } else {
        None
    }
}

/// Records whether the video has ended, and asks for the next phase if it
/// has.
pub fn check_video(video: &mut CutsceneVideo, ended: bool) -> (request: Option<GameState>)
    ensures
        final(video).src == old(video).src,
        final(video).element_id == old(video).element_id,
        final(video).is_playing == video_state(ended),
        request == video_request(ended),
{
    if ended {
        video.is_playing = VideoState::Ended;
        Some(CUTSCENE_NEXT_STATE)
    } else {
        video.is_playing = VideoState::Playing;
        None
    }
}

/// Asks for the cutscene when the debug action for it is set.
pub fn debug_play_cutscene(actions: &Actions) -> (request: Option<GameState>)
    ensures
        request == debug_request(*actions),
{
    if actions.debug_play_cutscene {
        Some(GameState::PlayingCutScene)
    } else {
        None
    }
}

} // verus!

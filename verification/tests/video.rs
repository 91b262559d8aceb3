use hook::player::Actions;
use hook::video::check_video;
use hook::video::debug_play_cutscene;
use hook::video::CutsceneVideo;
use hook::video::VideoState;
use hook::video::CUTSCENE_NEXT_STATE;
use hook::GameState;

fn cutscene() -> CutsceneVideo {
    CutsceneVideo {
        src: String::from("assets/video/cutscene.mp4"),
        element_id: String::from("cutscene"),
        is_playing: VideoState::default(),
    }
}

#[test]
fn video_starts_ended() {
    assert_eq!(VideoState::default(), VideoState::Ended);
}

#[test]
fn running_video_keeps_the_cutscene() {
    let mut video = cutscene();
    assert_eq!(check_video(&mut video, false), None);
    assert_eq!(video.is_playing, VideoState::Playing);
    assert_eq!(video.src, "assets/video/cutscene.mp4");
    assert_eq!(video.element_id, "cutscene");
}

#[test]
fn ended_video_leads_to_the_menu() {
    let mut video = cutscene();
    check_video(&mut video, false);
    let request = check_video(&mut video, true);
    assert_eq!(CUTSCENE_NEXT_STATE, GameState::Menu);
    assert_eq!(request, Some(GameState::Menu));
    assert_eq!(video.is_playing, VideoState::Ended);
    assert_eq!(GameState::PlayingCutScene.request(request), GameState::Menu);
}

#[test]
fn debug_action_asks_for_the_cutscene() {
    let quiet = Actions { player_movement: None, jump: false, debug_play_cutscene: false };
    assert_eq!(debug_play_cutscene(&quiet), None);
    let actions = Actions { player_movement: None, jump: false, debug_play_cutscene: true };
    assert_eq!(debug_play_cutscene(&actions), Some(GameState::PlayingCutScene));
    assert_eq!(
        GameState::Playing.request(debug_play_cutscene(&actions)),
        GameState::PlayingCutScene
    );
}

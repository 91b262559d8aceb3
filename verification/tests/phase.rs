use hook::contains_entity;
use hook::GameState;
use hook::Sprite;
use hook::FRAME_INTERVAL;

const ALL: [GameState; 8] = [
    GameState::Initializing,
    GameState::Loading,
    GameState::Menu,
    GameState::LoadingLevel,
    GameState::SpawningEntities,
    GameState::InitializingPhysics,
    GameState::Playing,
    GameState::PlayingCutScene,
];

#[test]
fn game_starts_initializing() {
    assert_eq!(GameState::default(), GameState::Initializing);
}

#[test]
fn phases_follow_each_other_in_order() {
    for i in 0..7 {
        assert_eq!(ALL[i].next(), ALL[i + 1]);
    }
}

#[test]
fn cutscene_leads_back_to_the_menu() {
    assert_eq!(GameState::PlayingCutScene.next(), GameState::Menu);
}

#[test]
fn request_for_the_following_phase_is_granted() {
    for phase in ALL {
        assert_eq!(phase.request(Some(phase.next())), phase.next());
    }
}

#[test]
fn any_other_request_is_refused() {
    for phase in ALL {
        assert_eq!(phase.request(None), phase);
        for wanted in ALL {
            if wanted != phase.next() {
                assert_eq!(phase.request(Some(wanted)), phase);
            }
        }
    }
}

#[test]
fn only_playing_runs_the_game_logic() {
    for phase in ALL {
        assert_eq!(phase.is_playing(), phase == GameState::Playing);
    }
}

#[test]
fn sprite_starts_on_the_first_frame() {
    assert_eq!(Sprite::default(), Sprite { index: 0, flip_x: false });
    assert_eq!(FRAME_INTERVAL, 125_000_000);
}

#[test]
fn contains_entity_finds_members_only() {
    let entities = vec![3u64, 5, 8];
    assert!(contains_entity(&entities, 3));
    assert!(contains_entity(&entities, 8));
    assert!(!contains_entity(&entities, 4));
    assert!(!contains_entity(&Vec::new(), 0));
}

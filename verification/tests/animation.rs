use hook::enemy::animation::advance_frame;
use hook::enemy::animation::animation_controller;
use hook::enemy::animation::update_enemy_animation;
use hook::enemy::animation::AnimationSettings;
use hook::enemy::state::EnemyState;
use hook::enemy::EnemyActor;
use hook::math::Position;
use hook::timer::Timer;
use hook::timer::TimerMode;
use hook::AnimationTimer;

const FRAME_TIME: u64 = 125_000_000;

fn enemy() -> EnemyActor {
    EnemyActor::new(1, Position { x: 0, y: 0 })
}

#[test]
fn each_state_has_its_frames() {
    let expected: [(EnemyState, Vec<usize>); 4] = [
        (EnemyState::Patrol, vec![0, 1]),
        (EnemyState::Pursue, vec![0, 1, 2]),
        (EnemyState::LungeAttack, vec![2]),
        (EnemyState::SpewAttack, vec![3]),
    ];
    for (state, frames) in expected {
        let settings = AnimationSettings::for_state(state);
        assert_eq!(settings.last_state, state);
        assert_eq!(
            settings.animation_timer,
            AnimationTimer {
                timer: Timer::new(FRAME_TIME, TimerMode::Repeating),
                frame_count: frames.len()
            }
        );
        assert_eq!(settings.frames, frames);
    }
}

#[test]
fn next_frame_wraps_around() {
    let frames = vec![0, 1, 2];
    assert_eq!(advance_frame(&frames, 0), 1);
    assert_eq!(advance_frame(&frames, 1), 2);
    assert_eq!(advance_frame(&frames, 2), 0);
}

#[test]
fn next_frame_follows_the_list_not_the_numbers() {
    let frames = vec![4, 9, 6];
    assert_eq!(advance_frame(&frames, 4), 9);
    assert_eq!(advance_frame(&frames, 9), 6);
    assert_eq!(advance_frame(&frames, 6), 4);
}

#[test]
fn frame_outside_the_list_snaps_to_the_first() {
    assert_eq!(advance_frame(&vec![2], 0), 2);
    assert_eq!(advance_frame(&vec![3], 1), 3);
    assert_eq!(advance_frame(&vec![0, 1], 3), 0);
    assert_eq!(advance_frame(&vec![5, 6], usize::MAX), 5);
}

#[test]
fn single_frame_stays() {
    assert_eq!(advance_frame(&vec![2], 2), 2);
}

#[test]
fn repeated_frame_is_found_at_its_first_place() {
    assert_eq!(advance_frame(&vec![1, 2, 1, 3], 1), 2);
    assert_eq!(advance_frame(&vec![1, 2, 2], 2), 2);
}

#[test]
fn empty_list_leaves_the_frame() {
    assert_eq!(advance_frame(&Vec::new(), 5), 5);
}

#[test]
fn animation_advances_when_the_timer_completes() {
    let mut actor = enemy();
    actor.animate(FRAME_TIME - 1);
    assert_eq!(actor.sprite.index, 0);
    actor.animate(1);
    assert_eq!(actor.sprite.index, 1);
    actor.animate(FRAME_TIME);
    assert_eq!(actor.sprite.index, 0);
    assert_eq!(actor.animation.frames, vec![0, 1]);
}

#[test]
fn sprite_is_mirrored_unless_the_enemy_faces_left() {
    let mut actor = enemy();
    actor.enemy.facing_left = true;
    actor.animate(0);
    assert!(!actor.sprite.flip_x);
    actor.enemy.facing_left = false;
    actor.animate(0);
    assert!(actor.sprite.flip_x);
}

#[test]
fn controller_leaves_a_matching_animation_alone() {
    let mut actor = enemy();
    actor.animate(100);
    actor.sprite.index = 1;
    actor.control_animation();
    assert_eq!(actor.sprite.index, 1);
    assert_eq!(actor.animation.animation_timer.timer.elapsed, 100);
    assert_eq!(actor.animation.frames, vec![0, 1]);
}

#[test]
fn controller_resets_the_animation_on_a_change_of_state() {
    let mut actor = enemy();
    actor.state = EnemyState::Pursue;
    actor.animate(FRAME_TIME);
    assert_eq!(actor.sprite.index, 1);
    actor.animate(100);
    actor.control_animation();
    assert_eq!(actor.sprite.index, 0);
    assert_eq!(actor.animation.frames, vec![0, 1, 2]);
    assert_eq!(actor.animation.last_state, EnemyState::Pursue);
    assert_eq!(actor.animation.animation_timer.frame_count, 3);
    assert_eq!(
        actor.animation.animation_timer.timer,
        Timer::new(FRAME_TIME, TimerMode::Repeating)
    );
}

#[test]
fn sprite_snaps_into_the_new_list_after_a_reset() {
    let mut actor = enemy();
    actor.state = EnemyState::SpewAttack;
    actor.control_animation();
    // The sprite shows the first frame of the old list until the timer completes.
    assert_eq!(actor.sprite.index, 0);
    actor.animate(FRAME_TIME);
    assert_eq!(actor.sprite.index, 3);
    actor.animate(FRAME_TIME);
    assert_eq!(actor.sprite.index, 3);

    actor.state = EnemyState::LungeAttack;
    actor.control_animation();
    assert_eq!(actor.sprite.index, 3);
    actor.animate(FRAME_TIME);
    assert_eq!(actor.sprite.index, 2);
}

#[test]
fn controller_copes_with_an_empty_list() {
    let mut actor = enemy();
    actor.animation.frames = Vec::new();
    actor.sprite.index = 4;
    actor.animate(FRAME_TIME);
    assert_eq!(actor.sprite.index, 4);
    actor.state = EnemyState::Pursue;
    actor.control_animation();
    assert_eq!(actor.sprite.index, 4);
    assert_eq!(actor.animation.frames, vec![0, 1, 2]);
}

#[test]
fn pursuit_cycles_through_three_frames() {
    let mut actor = enemy();
    actor.state = EnemyState::Pursue;
    actor.control_animation();
    let mut shown = Vec::new();
    for _ in 0..7 {
        actor.animate(FRAME_TIME);
        shown.push(actor.sprite.index);
    }
    assert_eq!(shown, vec![1, 2, 0, 1, 2, 0, 1]);
}

#[test]
fn animation_systems_cover_every_enemy() {
    let mut actors = vec![enemy(), enemy(), enemy()];
    actors[1].state = EnemyState::Pursue;
    actors[2].enemy.facing_left = false;
    animation_controller(&mut actors);
    assert_eq!(actors[0].animation.frames, vec![0, 1]);
    assert_eq!(actors[1].animation.frames, vec![0, 1, 2]);
    update_enemy_animation(&mut actors, FRAME_TIME);
    for actor in &actors {
        assert_eq!(actor.sprite.index, 1);
    }
    assert!(!actors[0].sprite.flip_x);
    assert!(actors[2].sprite.flip_x);
    update_enemy_animation(&mut actors, FRAME_TIME);
    assert_eq!(actors[0].sprite.index, 0);
    assert_eq!(actors[1].sprite.index, 2);

    let mut none: Vec<EnemyActor> = Vec::new();
    animation_controller(&mut none);
    update_enemy_animation(&mut none, FRAME_TIME);
    assert!(none.is_empty());
}

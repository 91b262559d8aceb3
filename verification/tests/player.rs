use hook::math::Position;
use hook::math::Velocity;
use hook::player::advance_cycle_frame;
use hook::player::boundary_check;
use hook::player::cleanup;
use hook::player::death_check;
use hook::player::move_player;
use hook::player::spawn_player;
use hook::player::update_player_animation;
use hook::player::Actions;
use hook::player::Movement;
use hook::player::Player;
use hook::player::PlayerActor;
use hook::player::HORIZONTAL_BOUND;
use hook::player::JUMP_SPEED;
use hook::player::VERTICAL_BOUND;
use hook::player::WALK_SPEED;
use hook::timer::Timer;
use hook::timer::TimerMode;
use hook::GameState;

const GROUND_TILE: u64 = 10;
const WALL_TILE: u64 = 20;
const FRAME_TIME: u64 = 125_000_000;

fn idle() -> Actions {
    Actions { player_movement: None, jump: false, debug_play_cutscene: false }
}

fn walk(x: i32) -> Actions {
    Actions { player_movement: Some(Movement { x, y: 0 }), jump: false, debug_play_cutscene: false }
}

fn jump() -> Actions {
    Actions { player_movement: None, jump: true, debug_play_cutscene: false }
}

fn player() -> PlayerActor {
    PlayerActor::new(1, Position { x: 0, y: 0 })
}

fn on_ground(player: &mut Option<PlayerActor>, actions: &Actions) {
    move_player(player, actions, &vec![GROUND_TILE], &vec![GROUND_TILE], &vec![GROUND_TILE]);
}

fn in_the_air(player: &mut Option<PlayerActor>, actions: &Actions) {
    move_player(player, actions, &vec![], &vec![GROUND_TILE], &vec![]);
}

#[test]
fn default_player() {
    assert_eq!(WALK_SPEED, 150);
    assert_eq!(JUMP_SPEED, 300);
    assert_eq!(
        Player::default(),
        Player { walk_speed: 150, jump_speed: 300, is_jumping: false, is_alive: true }
    );
}

#[test]
fn player_is_placed_and_physics_is_asked_for() {
    let (actor, request) = spawn_player(5, Position { x: 7, y: -3 });
    assert_eq!(request, GameState::InitializingPhysics);
    assert_eq!(GameState::SpawningEntities.request(Some(request)), GameState::InitializingPhysics);
    assert_eq!(actor.entity, 5);
    assert_eq!(actor.position, Position { x: 7, y: -3 });
    assert_eq!(actor.velocity, Velocity { x: 0, y: 0 });
    assert_eq!(actor.player, Player::default());
    assert_eq!(actor.sprite.index, 0);
    assert!(!actor.sprite.flip_x);
    assert_eq!(actor.animation_timer.frame_count, 3);
    assert_eq!(actor.animation_timer.timer, Timer::new(FRAME_TIME, TimerMode::Repeating));
    assert_eq!(actor, PlayerActor::new(5, Position { x: 7, y: -3 }));
}

#[test]
fn walking_sets_the_velocity_at_once() {
    let mut actor = Some(player());
    on_ground(&mut actor, &walk(1));
    assert_eq!(actor.unwrap().velocity, Velocity { x: 150, y: 0 });
    on_ground(&mut actor, &walk(-1));
    assert_eq!(actor.unwrap().velocity, Velocity { x: -150, y: 0 });
    on_ground(&mut actor, &walk(0));
    assert_eq!(actor.unwrap().velocity, Velocity { x: 0, y: 0 });
}

#[test]
fn without_intent_the_velocity_stays() {
    let mut start = player();
    start.velocity = Velocity { x: 33, y: -4 };
    let mut actor = Some(start);
    on_ground(&mut actor, &idle());
    assert_eq!(actor, Some(start));
}

#[test]
fn vertical_intent_does_not_move_the_player() {
    let mut actor = Some(player());
    let actions = Actions {
        player_movement: Some(Movement { x: 0, y: 1 }),
        jump: false,
        debug_play_cutscene: false,
    };
    on_ground(&mut actor, &actions);
    assert_eq!(actor.unwrap().velocity, Velocity { x: 0, y: 0 });
}

#[test]
fn walking_at_the_limits_does_not_overflow() {
    let mut start = player();
    start.player.walk_speed = i32::MIN;
    let mut actor = Some(start);
    on_ground(&mut actor, &walk(i32::MIN));
    assert_eq!(actor.unwrap().velocity.x, 1i64 << 62);
}

#[test]
fn jump_from_the_ground() {
    let mut actor = Some(player());
    on_ground(&mut actor, &jump());
    let after = actor.unwrap();
    assert!(after.player.is_jumping);
    assert_eq!(after.velocity, Velocity { x: 0, y: 300 });
}

#[test]
fn no_jump_in_the_air() {
    let mut actor = Some(player());
    in_the_air(&mut actor, &jump());
    let after = actor.unwrap();
    assert!(!after.player.is_jumping);
    assert_eq!(after.velocity.y, 0);
}

#[test]
fn no_jump_off_a_wall() {
    let mut actor = Some(player());
    move_player(&mut actor, &jump(), &vec![WALL_TILE], &vec![GROUND_TILE], &vec![]);
    assert!(!actor.unwrap().player.is_jumping);
    assert_eq!(actor.unwrap().velocity.y, 0);
}

#[test]
fn no_second_jump_before_landing() {
    let mut actor = Some(player());
    on_ground(&mut actor, &jump());
    let mut rising = actor.unwrap();
    rising.velocity.y = 120;
    actor = Some(rising);
    in_the_air(&mut actor, &jump());
    assert_eq!(actor.unwrap().velocity.y, 120);
    assert!(actor.unwrap().player.is_jumping);
}

#[test]
fn landing_ends_the_jump_and_the_next_frame_may_jump_again() {
    let mut actor = Some(player());
    on_ground(&mut actor, &jump());
    let mut falling = actor.unwrap();
    falling.velocity.y = -40;
    actor = Some(falling);

    // The frame of the landing only ends the jump.
    on_ground(&mut actor, &jump());
    assert!(!actor.unwrap().player.is_jumping);
    assert_eq!(actor.unwrap().velocity.y, -40);

    on_ground(&mut actor, &jump());
    assert!(actor.unwrap().player.is_jumping);
    assert_eq!(actor.unwrap().velocity.y, 300);
}

#[test]
fn jumping_while_walking() {
    let mut actor = Some(player());
    let actions = Actions {
        player_movement: Some(Movement { x: -1, y: 0 }),
        jump: true,
        debug_play_cutscene: false,
    };
    on_ground(&mut actor, &actions);
    assert_eq!(actor.unwrap().velocity, Velocity { x: -150, y: 300 });
}

#[test]
fn player_systems_do_nothing_without_a_player() {
    let mut nobody: Option<PlayerActor> = None;
    on_ground(&mut nobody, &jump());
    assert_eq!(nobody, None);
    update_player_animation(&mut nobody, &walk(1), FRAME_TIME);
    assert_eq!(nobody, None);
    assert_eq!(death_check(&nobody), None);
    assert_eq!(boundary_check(&mut nobody), None);
    assert_eq!(nobody, None);
    assert_eq!(cleanup(&mut nobody), None);
}

#[test]
fn living_player_asks_for_nothing() {
    assert_eq!(death_check(&Some(player())), None);
}

#[test]
fn dead_player_asks_for_the_cutscene() {
    let mut actor = player();
    actor.player.is_alive = false;
    assert_eq!(death_check(&Some(actor)), Some(GameState::PlayingCutScene));
}

#[test]
fn leaving_the_world_kills() {
    assert_eq!(HORIZONTAL_BOUND, 400);
    assert_eq!(VERTICAL_BOUND, 300);
    for position in [
        Position { x: 401, y: 0 },
        Position { x: -401, y: 0 },
        Position { x: 0, y: 301 },
        Position { x: 0, y: -301 },
        Position { x: i32::MIN, y: i32::MIN },
        Position { x: i32::MAX, y: 0 },
    ] {
        let mut actor = Some(PlayerActor::new(1, position));
        assert_eq!(boundary_check(&mut actor), Some(GameState::PlayingCutScene));
        assert_eq!(actor, Some(PlayerActor::new(1, Position { x: 0, y: 0 })));
    }
}

#[test]
fn the_rim_of_the_world_is_safe() {
    for position in [
        Position { x: 400, y: 300 },
        Position { x: -400, y: -300 },
        Position { x: 0, y: 0 },
    ] {
        let mut actor = Some(PlayerActor::new(1, position));
        assert_eq!(boundary_check(&mut actor), None);
        assert_eq!(actor, Some(PlayerActor::new(1, position)));
    }
}

#[test]
fn cycle_frames_wrap() {
    assert_eq!(advance_cycle_frame(0, 3), 1);
    assert_eq!(advance_cycle_frame(1, 3), 2);
    assert_eq!(advance_cycle_frame(2, 3), 0);
    assert_eq!(advance_cycle_frame(7, 3), 2);
    assert_eq!(advance_cycle_frame(5, 1), 0);
    assert_eq!(advance_cycle_frame(5, 0), 5);
    assert_eq!(advance_cycle_frame(usize::MAX, usize::MAX), 1);
    assert_eq!(advance_cycle_frame(usize::MAX, 2), 0);
}

#[test]
fn walking_player_cycles_its_frames() {
    let mut actor = Some(player());
    let mut shown = Vec::new();
    for _ in 0..5 {
        update_player_animation(&mut actor, &walk(1), FRAME_TIME);
        shown.push(actor.unwrap().sprite.index);
    }
    assert_eq!(shown, vec![1, 2, 0, 1, 2]);
}

#[test]
fn standing_player_keeps_its_frame_but_the_timer_runs() {
    let mut actor = Some(player());
    update_player_animation(&mut actor, &idle(), 100_000_000);
    assert_eq!(actor.unwrap().sprite.index, 0);
    assert_eq!(actor.unwrap().animation_timer.timer.elapsed, 100_000_000);
    update_player_animation(&mut actor, &idle(), 100_000_000);
    assert_eq!(actor.unwrap().sprite.index, 0);
    assert_eq!(actor.unwrap().animation_timer.timer.elapsed, 75_000_000);
}

#[test]
fn player_sprite_turns_with_the_intent() {
    let mut actor = Some(player());
    update_player_animation(&mut actor, &walk(-1), 0);
    assert!(actor.unwrap().sprite.flip_x);
    update_player_animation(&mut actor, &walk(0), 0);
    assert!(actor.unwrap().sprite.flip_x);
    update_player_animation(&mut actor, &idle(), 0);
    assert!(actor.unwrap().sprite.flip_x);
    update_player_animation(&mut actor, &walk(1), 0);
    assert!(!actor.unwrap().sprite.flip_x);
}

#[test]
fn cleanup_removes_the_player() {
    let mut actor = Some(PlayerActor::new(77, Position { x: 0, y: 0 }));
    assert_eq!(cleanup(&mut actor), Some(77));
    assert_eq!(actor, None);
}

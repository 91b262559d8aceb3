//! The player: walking, jumping, dying, and the animation of the sprite.

use vstd::prelude::*;
use crate::AnimationTimer;
use crate::FRAME_INTERVAL;
use crate::GameState;
use crate::Sprite;
use crate::math::Position;
use crate::math::Velocity;
use crate::physics::check_if_grounded;
use crate::physics::grounded;
use crate::physics::touched;
use crate::timer::Timer;
use crate::timer::TimerMode;

verus! {

/// Horizontal speed of the walking player.
pub const WALK_SPEED: i32 = 150;

/// Vertical speed with which the player leaves the ground.
pub const JUMP_SPEED: i32 = 300;

/// Number of frames of the player's walk cycle.
pub const PLAYER_FRAME_COUNT: usize = 3;

/// The player dies beyond this distance from the origin, left or right.
pub const HORIZONTAL_BOUND: i32 = 400;

/// The player dies beyond this distance from the origin, up or down.
pub const VERTICAL_BOUND: i32 = 300;

/// The logical part of the player.
#[derive(Clone, Copy, Debug, PartialEq, Eq, Structural)]
pub struct Player {
    pub walk_speed: i32,
    pub jump_speed: i32,
    pub is_jumping: bool,
    pub is_alive: bool,
}

impl Player {
    /// The player at the start of a level: alive and on its feet.
    pub open spec fn initial() -> Player {
        Player { walk_speed: WALK_SPEED, jump_speed: JUMP_SPEED, is_jumping: false, is_alive: true }
    }
}

impl Default for Player {
    fn default() -> (player: Player)
        ensures
            player == Player::initial(),
    {
        Player { walk_speed: WALK_SPEED, jump_speed: JUMP_SPEED, is_jumping: false, is_alive: true }
    }
}

/// The direction in which the player wants to move.
#[derive(Clone, Copy, Debug, PartialEq, Eq, Structural)]
pub struct Movement {
    pub x: i32,
    pub y: i32,
}

/// What the player asked for in this frame.
#[derive(Clone, Copy, Debug, PartialEq, Eq, Structural)]
pub struct Actions {
    pub player_movement: Option<Movement>,
    pub jump: bool,
    pub debug_play_cutscene: bool,
}

/// The player in the registry of actors.
#[derive(Clone, Copy, Debug, PartialEq, Eq, Structural)]
pub struct PlayerActor {
    pub entity: u64,
    pub position: Position,
    pub velocity: Velocity,
    pub player: Player,
    pub sprite: Sprite,
    pub animation_timer: AnimationTimer,
}

/// The frame after `index` in a cycle of `frame_count` frames. A cycle
/// without frames leaves the frame as it is.
pub open spec fn next_cycle_frame(index: usize, frame_count: usize) -> usize {
    if frame_count == 0 {
        index
    } else {
        ((index + 1) % (frame_count as int)) as usize
    }
}

/// Finds the frame after `index` in a cycle of `frame_count` frames.
pub fn advance_cycle_frame(index: usize, frame_count: usize) -> (next: usize)
    ensures
        next == next_cycle_frame(index, frame_count),
{
    if frame_count == 0 {
        index
    } else {
        let following: u128 = (index as u128 + 1) % (frame_count as u128);
        following as usize
    }
}

/// The product of two 32-bit speeds fits in 64 bits.
proof fn lemma_speed_product_fits(a: int, b: int)
    requires
        -0x8000_0000 <= a < 0x8000_0000,
        -0x8000_0000 <= b < 0x8000_0000,
    ensures
        -0x4000_0000_0000_0000 <= a * b <= 0x4000_0000_0000_0000,
{
    assert(-0x4000_0000_0000_0000 <= a * b <= 0x4000_0000_0000_0000) by (nonlinear_arith)
        requires
            -0x8000_0000 <= a < 0x8000_0000,
            -0x8000_0000 <= b < 0x8000_0000,
    ;
}

impl PlayerActor {
    /// The player as it is placed in a level: alive, at rest, showing the
    /// first frame.
    pub open spec fn spawned(entity: u64, position: Position) -> PlayerActor {
        PlayerActor {
            entity,
            position,
            velocity: Velocity { x: 0, y: 0 },
            player: Player::initial(),
            sprite: Sprite::initial(),
            animation_timer: AnimationTimer {
                timer: Timer::fresh(FRAME_INTERVAL, TimerMode::Repeating),
                frame_count: PLAYER_FRAME_COUNT,
            },
        }
    }

    /// The player after one frame of control.
    ///
    /// With a movement intent the horizontal velocity becomes the intent
    /// times the walk speed; without one it stays. A player in a jump lands
    /// when it is on the ground. A player that is not in a jump starts one
    /// when a jump is asked for and it is on the ground: its vertical
    /// velocity becomes the jump speed.
    pub open spec fn moved(self, actions: Actions, on_ground: bool) -> PlayerActor {
        let x = match actions.player_movement {
            Some(movement) => (movement.x * self.player.walk_speed) as i64,
            None => self.velocity.x,
        };
        if self.player.is_jumping {
            PlayerActor {
                velocity: Velocity { x, y: self.velocity.y },
                player: Player { is_jumping: !on_ground, ..self.player },
                ..self
            }
        } else if actions.jump && on_ground {
            PlayerActor {
                velocity: Velocity { x, y: self.player.jump_speed as i64 },
                player: Player { is_jumping: true, ..self.player },
                ..self
            }
        } else {
            PlayerActor { velocity: Velocity { x, y: self.velocity.y }, ..self }
        }
    }

    /// The player after its animation has run for `delta` nanoseconds. The
    /// timer always runs. Only with a movement intent does the sprite
    /// change: it turns to the side of the intent, and moves on to the next
    /// frame of the cycle when the timer has completed.
    pub open spec fn animated(self, actions: Actions, delta: u64) -> PlayerActor {
        let timer = self.animation_timer.timer.ticked(delta);
        let animation_timer = AnimationTimer { timer, ..self.animation_timer };
        match actions.player_movement {
            Some(movement) => PlayerActor {
                sprite: Sprite {
                    index: if timer.spec_just_finished() {
                        next_cycle_frame(self.sprite.index, self.animation_timer.frame_count)
                    } else {
                        self.sprite.index
                    },
                    flip_x: if movement.x > 0 {
                        false
                    } else if movement.x < 0 {
                        true
                    } else {
                        self.sprite.flip_x
                    },
                },
                animation_timer,
                ..self
            },
            None => PlayerActor { animation_timer, ..self },
        }
    }

    /// The player after the contacts of some hostile bodies have been
    /// looked through: dead if one of them touches it.
    pub open spec fn struck(self, contacts: Seq<Vec<u64>>) -> PlayerActor {
        PlayerActor {
            player: Player {
                is_alive: self.player.is_alive && !touched(contacts, self.entity),
                ..self.player
            },
            ..self
        }
    }

    /// The player after the bounds of the world have been enforced: back
    /// at the origin if it was outside.
    pub open spec fn bounded(self) -> PlayerActor {
        if self.out_of_bounds() {
            PlayerActor { position: Position::spec_origin(), ..self }
        } else {
            self
        }
    }

    /// What the player's condition asks for: the cutscene, if it is dead.
    pub open spec fn death_request(self) -> Option<GameState> {
        if self.player.is_alive {
            None
        } else {
            Some(GameState::PlayingCutScene)
        }
    }

    /// What the player's position asks for: the cutscene, if it is outside
    /// the bounds of the world.
    pub open spec fn boundary_request(self) -> Option<GameState> {
        if self.out_of_bounds() {
            Some(GameState::PlayingCutScene)
        } else {
            None
        }
    }

    /// Whether the position lies outside the bounds of the world.
    pub open spec fn out_of_bounds(self) -> bool {
        ||| self.position.x > HORIZONTAL_BOUND
        ||| self.position.x < -HORIZONTAL_BOUND
        ||| self.position.y > VERTICAL_BOUND
        ||| self.position.y < -VERTICAL_BOUND
    }

    /// Places the player.
    pub fn new(entity: u64, position: Position) -> (actor: PlayerActor)
        ensures
            actor == PlayerActor::spawned(entity, position),
    {
        PlayerActor {
            entity,
            position,
            velocity: Velocity { x: 0, y: 0 },
            player: Player::default(),
            sprite: Sprite::default(),
            animation_timer: AnimationTimer {
                timer: Timer::new(FRAME_INTERVAL, TimerMode::Repeating),
                frame_count: PLAYER_FRAME_COUNT,
            },
        }
    }

    /// Applies one frame of control to the player.
    pub fn steer(&mut self, actions: &Actions, on_ground: bool)
        ensures
            *final(self) == old(self).moved(*actions, on_ground),
    {
        if let Some(movement) = actions.player_movement {
            proof {
                lemma_speed_product_fits(movement.x as int, self.player.walk_speed as int);
            }
            self.velocity.x = movement.x as i64 * self.player.walk_speed as i64;
        }
        if self.player.is_jumping {
            if on_ground {
                self.player.is_jumping = false;
            }
        } else if actions.jump && on_ground {
            self.player.is_jumping = true;
            self.velocity.y = self.player.jump_speed as i64;
        }
    }

    /// Runs the player's animation for `delta` nanoseconds.
    pub fn animate(&mut self, actions: &Actions, delta: u64)
        ensures
            *final(self) == old(self).animated(*actions, delta),
    {
        self.animation_timer.timer.tick(delta);
        if let Some(movement) = actions.player_movement {
            if movement.x > 0 {
                self.sprite.flip_x = false;
            } else if movement.x < 0 {
                self.sprite.flip_x = true;
            }
            if self.animation_timer.timer.just_finished() {
                self.sprite.index = advance_cycle_frame(
                    self.sprite.index,
                    self.animation_timer.frame_count,
                );
            }
        }
    }

    /// Whether the player has left the bounds of the world.
    pub fn is_out_of_bounds(&self) -> (outside: bool)
        ensures
            outside == self.out_of_bounds(),
    {
        self.position.x > HORIZONTAL_BOUND || self.position.x < -HORIZONTAL_BOUND
            || self.position.y > VERTICAL_BOUND || self.position.y < -VERTICAL_BOUND
    }
}

/// A player that is in a jump and off the ground cannot jump again: whatever
/// is asked for, its vertical velocity stays and the jump goes on.
pub proof fn lemma_no_double_jump(actor: PlayerActor, actions: Actions)
    requires
        actor.player.is_jumping,
    ensures
        actor.moved(actions, false).velocity.y == actor.velocity.y,
        actor.moved(actions, false).player.is_jumping,
        !actor.moved(actions, true).player.is_jumping,
        actor.moved(actions, true).velocity.y == actor.velocity.y,
{
}

/// The player, if there is one, after `change` has been made to it.
pub open spec fn changed(
    player: Option<PlayerActor>,
    change: spec_fn(PlayerActor) -> PlayerActor,
) -> Option<PlayerActor> {
    match player {
        Some(actor) => Some(change(actor)),
        None => None,
    }
}

/// What the player, if there is one, asks for.
pub open spec fn asked(
    player: Option<PlayerActor>,
    request: spec_fn(PlayerActor) -> Option<GameState>,
) -> Option<GameState> {
    match player {
        Some(actor) => request(actor),
        None => None,
    }
}

/// Places the player in the level and asks for the phase in which the
/// physics bodies come to rest.
pub fn spawn_player(entity: u64, position: Position) -> (spawned: (PlayerActor, GameState))
    ensures
        spawned.0 == PlayerActor::spawned(entity, position),
        spawned.1 == GameState::InitializingPhysics,
{
    (PlayerActor::new(entity, position), GameState::InitializingPhysics)
}

/// One frame of player control. Whether the player stands on the ground is
/// decided from its contacts, the registered ground and the hits of its
/// downward ray. Without a player nothing happens.
pub fn move_player(
    player: &mut Option<PlayerActor>,
    actions: &Actions,
    colliding: &Vec<u64>,
    grounds: &Vec<u64>,
    ray_hits: &Vec<u64>,
)
    ensures
        *final(player) == changed(
            *old(player),
            |actor: PlayerActor| actor.moved(*actions, grounded(colliding@, grounds@, ray_hits@)),
        ),
{
    let on_ground = check_if_grounded(colliding, grounds, ray_hits);
    match player {
        Some(actor) => {
            actor.steer(actions, on_ground);
        },
        None => {},
    }
}

/// Runs the player's animation for `delta` nanoseconds. Without a player
/// nothing happens.
pub fn update_player_animation(player: &mut Option<PlayerActor>, actions: &Actions, delta: u64)
    ensures
        *final(player) == changed(
            *old(player),
            |actor: PlayerActor| actor.animated(*actions, delta),
        ),
{
    match player {
        Some(actor) => {
            actor.animate(actions, delta);
        },
        None => {},
    }
}

/// Asks for the cutscene when the player is dead. A living player, or none
/// at all, asks for nothing.
pub fn death_check(player: &Option<PlayerActor>) -> (request: Option<GameState>)
    ensures
        request == asked(*player, |actor: PlayerActor| actor.death_request()),
{
    match player {
        Some(actor) => {
            if !actor.player.is_alive {
                Some(GameState::PlayingCutScene)
            } else {
                None
            }
        },
        None => None,
    }
}

/// Asks for the cutscene when the player has left the bounds of the world,
/// and puts the player back at the origin. A player inside the bounds, or
/// none at all, is left alone and asks for nothing.
pub fn boundary_check(player: &mut Option<PlayerActor>) -> (request: Option<GameState>)
    ensures
        *final(player) == changed(*old(player), |actor: PlayerActor| actor.bounded()),
        request == asked(*old(player), |actor: PlayerActor| actor.boundary_request()),
{
    match player {
        Some(actor) => {
            if actor.is_out_of_bounds() {
                actor.position = Position::origin();
                Some(GameState::PlayingCutScene)
            } else {
                None
            }
        },
        None => None,
    }
}

/// Takes the player out of the registry and names the entity to remove.
pub fn cleanup(player: &mut Option<PlayerActor>) -> (removed: Option<u64>)
    ensures
        *final(player) is None,
        *old(player) is None ==> removed is None,
        *old(player) matches Some(actor) ==> removed == Some(actor.entity),
{
    let removed = match player {
        Some(actor) => Some(actor.entity),
        None => None,
    };
    *player = None;
    removed
}

} // verus!

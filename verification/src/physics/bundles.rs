//! The physical make-up of each kind of body: its shape, how it moves, what
//! it may touch and how it slides and bounces.

use vstd::prelude::*;
use crate::math::Velocity;
use crate::physics::CollisionGroups;
use crate::physics::ENEMY;
use crate::physics::GROUND;
use crate::physics::PLAYER;
use crate::physics::PROJECTILE;
use crate::physics::WALL;

verus! {

/// Width of the player's collision box.
pub const PLAYER_COLLISION_WIDTH: u32 = 10;

/// Height of the player's collision box.
pub const PLAYER_COLLISION_HEIGHT: u32 = 32;

/// Width of an enemy's collision box.
pub const ENEMY_COLLISION_WIDTH: u32 = 64;

/// Height of an enemy's collision box.
pub const ENEMY_COLLISION_HEIGHT: u32 = 25;

/// Diameter of a projectile.
pub const CLOCK_DIAMETER: u32 = 9;

/// Side of a level tile.
pub const TILE_SIZE: u32 = 32;

/// Friction of the ground.
pub const GROUND_FRICTION: u32 = 13;

/// The shape of a body, by its full extent.
#[derive(Clone, Copy, Debug, PartialEq, Eq, Structural)]
pub enum Collider {
    Cuboid { width: u32, height: u32 },
    Ball { diameter: u32 },
}

/// How a body takes part in the simulation.
#[derive(Clone, Copy, Debug, PartialEq, Eq, Structural)]
pub enum RigidBody {
    /// Moved by forces and contacts.
    Dynamic,
    /// Never moves.
    Fixed,
}

/// How the coefficients of two touching bodies are combined.
#[derive(Clone, Copy, Debug, PartialEq, Eq, Structural)]
pub enum CoefficientCombineRule {
    Average,
    Min,
    Multiply,
    Max,
}

/// How much a body resists sliding.
#[derive(Clone, Copy, Debug, PartialEq, Eq, Structural)]
pub struct Friction {
    pub coefficient: u32,
    pub combine_rule: CoefficientCombineRule,
}

/// How much a body bounces.
#[derive(Clone, Copy, Debug, PartialEq, Eq, Structural)]
pub struct Restitution {
    pub coefficient: u32,
    pub combine_rule: CoefficientCombineRule,
}

/// The body of the player.
#[derive(Clone, Copy, Debug, PartialEq, Eq, Structural)]
pub struct PlayerPhysicsBundle {
    pub collider: Collider,
    pub rigid_body: RigidBody,
    pub collision_groups: CollisionGroups,
    pub velocity: Velocity,
    pub rotation_locked: bool,
    pub friction: Friction,
    pub restitution: Restitution,
}

/// The body of an enemy.
#[derive(Clone, Copy, Debug, PartialEq, Eq, Structural)]
pub struct EnemyPhysicsBundle {
    pub collider: Collider,
    pub rigid_body: RigidBody,
    pub collision_groups: CollisionGroups,
    pub velocity: Velocity,
    pub rotation_locked: bool,
    pub friction: Friction,
    pub restitution: Restitution,
}

/// The body of a clock.
#[derive(Clone, Copy, Debug, PartialEq, Eq, Structural)]
pub struct ClockPhysicsBundle {
    pub rigid_body: RigidBody,
    pub collider: Collider,
    pub collision_groups: CollisionGroups,
    pub velocity: Velocity,
}

/// The body of a level tile.
#[derive(Clone, Copy, Debug, PartialEq, Eq, Structural)]
pub struct FixedTilePhysicsBundle {
    pub collider: Collider,
    pub rigid_body: RigidBody,
    pub restitution: Restitution,
}

/// The body of a ground tile.
#[derive(Clone, Copy, Debug, PartialEq, Eq, Structural)]
pub struct GroundPhysicsBundle {
    pub tile_physics: FixedTilePhysicsBundle,
    pub collision_groups: CollisionGroups,
    pub friction: Friction,
}

/// The body of a wall tile.
#[derive(Clone, Copy, Debug, PartialEq, Eq, Structural)]
pub struct WallPhysicsBundle {
    pub tile_physics: FixedTilePhysicsBundle,
    pub collision_groups: CollisionGroups,
}

/// A body that neither slides nor bounces less for being touched: the
/// coefficient is zero and is averaged with that of the other body.
pub open spec fn no_friction() -> Friction {
    Friction { coefficient: 0, combine_rule: CoefficientCombineRule::Average }
}

/// A body that does not bounce.
pub open spec fn no_restitution() -> Restitution {
    Restitution { coefficient: 0, combine_rule: CoefficientCombineRule::Average }
}

impl Default for PlayerPhysicsBundle {
    fn default() -> (bundle: PlayerPhysicsBundle)
        ensures
            bundle == (PlayerPhysicsBundle {
                collider: Collider::Cuboid { width: 10, height: 32 },
                rigid_body: RigidBody::Dynamic,
                collision_groups: CollisionGroups::player(),
                velocity: Velocity { x: 0, y: 0 },
                rotation_locked: true,
                friction: no_friction(),
                restitution: no_restitution(),
            }),
    {
        assert(ENEMY | GROUND | WALL | PROJECTILE == 0x1e) by (bit_vector)
            requires
                ENEMY == 0x10 && GROUND == 0x04 && WALL == 0x02 && PROJECTILE == 0x08,
        ;
        PlayerPhysicsBundle {
            collider: Collider::Cuboid {
                width: PLAYER_COLLISION_WIDTH,
                height: PLAYER_COLLISION_HEIGHT,
            },
            rigid_body: RigidBody::Dynamic,
            collision_groups: CollisionGroups::new(PLAYER, ENEMY | GROUND | WALL | PROJECTILE),
            velocity: Velocity { x: 0, y: 0 },
            rotation_locked: true,
            friction: Friction { coefficient: 0, combine_rule: CoefficientCombineRule::Average },
            restitution: Restitution {
                coefficient: 0,
                combine_rule: CoefficientCombineRule::Average,
            },
        }
    }
}

impl Default for EnemyPhysicsBundle {
    fn default() -> (bundle: EnemyPhysicsBundle)
        ensures
            bundle == (EnemyPhysicsBundle {
                collider: Collider::Cuboid { width: 64, height: 25 },
                rigid_body: RigidBody::Dynamic,
                collision_groups: CollisionGroups::enemy(),
                velocity: Velocity { x: 0, y: 0 },
                rotation_locked: true,
                friction: no_friction(),
                restitution: no_restitution(),
            }),
    {
        assert(PLAYER | GROUND | WALL == 0x07) by (bit_vector)
            requires
                PLAYER == 0x01 && GROUND == 0x04 && WALL == 0x02,
        ;
        EnemyPhysicsBundle {
            collider: Collider::Cuboid {
                width: ENEMY_COLLISION_WIDTH,
                height: ENEMY_COLLISION_HEIGHT,
            },
            rigid_body: RigidBody::Dynamic,
            collision_groups: CollisionGroups::new(ENEMY, PLAYER | GROUND | WALL),
            velocity: Velocity { x: 0, y: 0 },
            rotation_locked: true,
            friction: Friction { coefficient: 0, combine_rule: CoefficientCombineRule::Average },
            restitution: Restitution {
                coefficient: 0,
                combine_rule: CoefficientCombineRule::Average,
            },
        }
    }
}

impl Default for ClockPhysicsBundle {
    fn default() -> (bundle: ClockPhysicsBundle)
        ensures
            bundle == (ClockPhysicsBundle {
                rigid_body: RigidBody::Dynamic,
                collider: Collider::Ball { diameter: 9 },
                collision_groups: CollisionGroups::projectile(),
                velocity: Velocity { x: 0, y: 0 },
            }),
    {
        assert(PLAYER | GROUND | WALL == 0x07) by (bit_vector)
            requires
                PLAYER == 0x01 && GROUND == 0x04 && WALL == 0x02,
        ;
        ClockPhysicsBundle {
            rigid_body: RigidBody::Dynamic,
            collider: Collider::Ball { diameter: CLOCK_DIAMETER },
            collision_groups: CollisionGroups::new(PROJECTILE, PLAYER | GROUND | WALL),
            velocity: Velocity { x: 0, y: 0 },
        }
    }
}

impl Default for FixedTilePhysicsBundle {
    fn default() -> (bundle: FixedTilePhysicsBundle)
        ensures
            bundle == (FixedTilePhysicsBundle {
                collider: Collider::Cuboid { width: 32, height: 32 },
                rigid_body: RigidBody::Fixed,
                restitution: no_restitution(),
            }),
    {
        FixedTilePhysicsBundle {
            collider: Collider::Cuboid { width: TILE_SIZE, height: TILE_SIZE },
            rigid_body: RigidBody::Fixed,
            restitution: Restitution {
                coefficient: 0,
                combine_rule: CoefficientCombineRule::Average,
            },
        }
    }
}

impl Default for GroundPhysicsBundle {
    fn default() -> (bundle: GroundPhysicsBundle)
        ensures
            bundle.collision_groups == CollisionGroups::tile(),
            bundle.tile_physics == (FixedTilePhysicsBundle {
                collider: Collider::Cuboid { width: 32, height: 32 },
                rigid_body: RigidBody::Fixed,
                restitution: no_restitution(),
            }),
            bundle.friction == (Friction {
                coefficient: 13,
                combine_rule: CoefficientCombineRule::Average,
            }),
    {
        assert(PLAYER | ENEMY | PROJECTILE == 0x19) by (bit_vector)
            requires
                PLAYER == 0x01 && ENEMY == 0x10 && PROJECTILE == 0x08,
        ;
        GroundPhysicsBundle {
            collision_groups: CollisionGroups::new(GROUND, PLAYER | ENEMY | PROJECTILE),
            tile_physics: FixedTilePhysicsBundle::default(),
            friction: Friction {
                coefficient: GROUND_FRICTION,
                combine_rule: CoefficientCombineRule::Average,
            },
        }
    }
}

impl Default for WallPhysicsBundle {
    fn default() -> (bundle: WallPhysicsBundle)
        ensures
            bundle.collision_groups == CollisionGroups::tile(),
            bundle.tile_physics == (FixedTilePhysicsBundle {
                collider: Collider::Cuboid { width: 32, height: 32 },
                rigid_body: RigidBody::Fixed,
                restitution: no_restitution(),
            }),
    {
        assert(PLAYER | ENEMY | PROJECTILE == 0x19) by (bit_vector)
            requires
                PLAYER == 0x01 && ENEMY == 0x10 && PROJECTILE == 0x08,
        ;
        WallPhysicsBundle {
            collision_groups: CollisionGroups::new(GROUND, PLAYER | ENEMY | PROJECTILE),
            tile_physics: FixedTilePhysicsBundle::default(),
        }
    }
}

} // verus!

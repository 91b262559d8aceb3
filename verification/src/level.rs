//! The static geometry of a level: which cells of the tile grid are ground,
//! which are walls, and the registry of the entities made from them.

use vstd::prelude::*;
use crate::GameState;
use crate::contains_entity;
use crate::physics::CollisionGroups;
use crate::physics::bundles::CoefficientCombineRule;
use crate::physics::bundles::Collider;
use crate::physics::bundles::FixedTilePhysicsBundle;
use crate::physics::bundles::Friction;
use crate::physics::bundles::GroundPhysicsBundle;
use crate::physics::bundles::RigidBody;
use crate::physics::bundles::WallPhysicsBundle;
use crate::physics::bundles::no_restitution;

verus! {

/// The value of a grid cell that holds ground.
pub const GROUND_CELL: i32 = 2;

/// The value of a grid cell that holds a wall.
pub const WALL_CELL: i32 = 3;

/// Marks an entity as ground: an actor can stand on it.
#[derive(Clone, Copy, Debug, PartialEq, Eq, Structural)]
pub struct Ground;

/// Marks an entity as a wall: it stops an actor but carries none.
#[derive(Clone, Copy, Debug, PartialEq, Eq, Structural)]
pub struct Wall;

/// What a grid cell with a collider is.
#[derive(Clone, Copy, Debug, PartialEq, Eq, Structural)]
pub enum TileKind {
    Ground,
    Wall,
}

/// The kind of tile that a cell value stands for, if any.
pub open spec fn tile_kind(cell: i32) -> Option<TileKind> {
    if cell == GROUND_CELL {
        Some(TileKind::Ground)
    } else if cell == WALL_CELL {
        Some(TileKind::Wall)
    } else {
        None
    }
}

/// The name given to the entity of a cell: that of its kind, or none.
pub open spec fn tile_name(cell: i32) -> Seq<char> {
    match tile_kind(cell) {
        Some(TileKind::Ground) => "Ground"@,
        Some(TileKind::Wall) => "Wall"@,
        None => Seq::empty(),
    }
}

/// Tells what kind of tile a cell value stands for, if any.
pub fn classify_cell(cell: i32) -> (kind: Option<TileKind>)
    ensures
        kind == tile_kind(cell),
{
    if cell == GROUND_CELL {
        Some(TileKind::Ground)
    } else if cell == WALL_CELL {
        Some(TileKind::Wall)
    } else {
        None
    }
}

/// What every tile with a collider carries.
#[derive(Clone, Debug)]
pub struct ColliderTileBundle {
    pub name: String,
}

impl ColliderTileBundle {
    /// The bundle for a cell of the grid with the given value.
    pub fn from_cell(cell: i32) -> (bundle: ColliderTileBundle)
        ensures
            bundle.name@ == tile_name(cell),
    {
        match classify_cell(cell) {
            Some(TileKind::Ground) => ColliderTileBundle { name: "Ground".to_owned() },
            Some(TileKind::Wall) => ColliderTileBundle { name: "Wall".to_owned() },
            None => ColliderTileBundle { name: String::new() },
        }
    }
}

/// What a ground tile carries.
#[derive(Clone, Debug)]
pub struct GroundBundle {
    pub ground: Ground,
    pub physics_bundle: GroundPhysicsBundle,
    pub collider_tile_bundle: ColliderTileBundle,
}

/// What a wall tile carries.
#[derive(Clone, Debug)]
pub struct WallBundle {
    pub wall: Wall,
    pub physics_bundle: WallPhysicsBundle,
    pub collider_tile_bundle: ColliderTileBundle,
}

/// The body of every level tile: a fixed square that does not bounce.
pub open spec fn tile_physics() -> FixedTilePhysicsBundle {
    FixedTilePhysicsBundle {
        collider: Collider::Cuboid { width: 32, height: 32 },
        rigid_body: RigidBody::Fixed,
        restitution: no_restitution(),
    }
}

impl GroundBundle {
    /// What a ground tile carries, named after the value of its cell.
    pub fn from_cell(cell: i32) -> (bundle: GroundBundle)
        ensures
            bundle.physics_bundle.tile_physics == tile_physics(),
            bundle.physics_bundle.collision_groups == CollisionGroups::tile(),
            bundle.physics_bundle.friction == (Friction {
                coefficient: 13,
                combine_rule: CoefficientCombineRule::Average,
            }),
            bundle.collider_tile_bundle.name@ == tile_name(cell),
    {
        GroundBundle {
            ground: Ground,
            physics_bundle: GroundPhysicsBundle::default(),
            collider_tile_bundle: ColliderTileBundle::from_cell(cell),
        }
    }
}

impl WallBundle {
    /// What a wall tile carries, named after the value of its cell.
    pub fn from_cell(cell: i32) -> (bundle: WallBundle)
        ensures
            bundle.physics_bundle.tile_physics == tile_physics(),
            bundle.physics_bundle.collision_groups == CollisionGroups::tile(),
            bundle.collider_tile_bundle.name@ == tile_name(cell),
    {
        WallBundle {
            wall: Wall,
            physics_bundle: WallPhysicsBundle::default(),
            collider_tile_bundle: ColliderTileBundle::from_cell(cell),
        }
    }
}

/// The registry of the level's static geometry, by entity.
#[derive(Clone, Debug)]
pub struct Level {
    pub grounds: Vec<u64>,
    pub walls: Vec<u64>,
}

impl Level {
    /// The entity is registered as ground.
    pub open spec fn has_ground(self, entity: u64) -> bool {
        self.grounds@.contains(entity)
    }

    /// The entity is registered as a wall.
    pub open spec fn has_wall(self, entity: u64) -> bool {
        self.walls@.contains(entity)
    }

    /// A level without geometry.
    pub fn new() -> (level: Level)
        ensures
            level.grounds@.len() == 0,
            level.walls@.len() == 0,
    {
        Level { grounds: Vec::new(), walls: Vec::new() }
    }

    /// The entities of one kind after `entity`, made for a cell of the
    /// given value, has been registered: it joins them if the cell is of
    /// that kind.
    pub open spec fn registered(
        entities: Seq<u64>,
        kind: TileKind,
        entity: u64,
        cell: i32,
    ) -> Seq<u64> {
        if tile_kind(cell) == Some(kind) {
            entities.push(entity)
        } else {
            entities
        }
    }

    /// Registers the entity that was made for a grid cell with the given
    /// value: as ground, as a wall, or not at all.
    pub fn register_tile(&mut self, entity: u64, cell: i32)
        ensures
            final(self).grounds@ == Self::registered(
                old(self).grounds@,
                TileKind::Ground,
                entity,
                cell,
            ),
            final(self).walls@ == Self::registered(old(self).walls@, TileKind::Wall, entity, cell),
    {
        match classify_cell(cell) {
            Some(TileKind::Ground) => {
                self.grounds.push(entity);
            },
            Some(TileKind::Wall) => {
                self.walls.push(entity);
            },
            None => {},
        }
    }

    /// Whether the entity is registered as ground.
    pub fn is_ground(&self, entity: u64) -> (found: bool)
        ensures
            found == self.has_ground(entity),
    {
        contains_entity(&self.grounds, entity)
    }

    /// Whether the entity is registered as a wall.
    pub fn is_wall(&self, entity: u64) -> (found: bool)
        ensures
            found == self.has_wall(entity),
    {
        contains_entity(&self.walls, entity)
    }
}

/// Starts a level with an empty registry and asks for the phase in which
/// the entities are placed.
pub fn setup(level: &mut Level) -> (request: GameState)
    ensures
        final(level).grounds@.len() == 0,
        final(level).walls@.len() == 0,
        request == GameState::SpawningEntities,
{
    level.grounds.clear();
    level.walls.clear();
    GameState::SpawningEntities
}

/// Empties the registry and names the entities to remove: the ground
/// first, then the walls, each in the order of registration.
pub fn cleanup(level: &mut Level) -> (removed: Vec<u64>)
    ensures
        final(level).grounds@.len() == 0,
        final(level).walls@.len() == 0,
        removed@ == old(level).grounds@ + old(level).walls@,
{
    let mut removed: Vec<u64> = Vec::new();
    let mut i: usize = 0;
    while i < level.grounds.len()
        invariant
            *level == *old(level),
            0 <= i <= level.grounds@.len(),
            removed@ == level.grounds@.take(i as int),
        decreases level.grounds@.len() - i,
    {
        removed.push(level.grounds[i]);
        assert(level.grounds@.take(i + 1) =~= level.grounds@.take(i as int).push(
            level.grounds@[i as int],
        ));
        i += 1;
    }
    assert(level.grounds@.take(i as int) =~= level.grounds@);
    let mut j: usize = 0;
    while j < level.walls.len()
        invariant
            *level == *old(level),
            0 <= j <= level.walls@.len(),
            removed@ == level.grounds@ + level.walls@.take(j as int),
        decreases level.walls@.len() - j,
    {
        removed.push(level.walls[j]);
        assert(level.grounds@ + level.walls@.take(j + 1) =~= (level.grounds@ + level.walls@.take(
            j as int,
        )).push(level.walls@[j as int]));
        j += 1;
    }
    assert(level.walls@.take(j as int) =~= level.walls@);
    level.grounds.clear();
    level.walls.clear();
    removed
}

} // verus!

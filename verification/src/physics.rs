//! What the game asks of the physics engine: which bodies may touch, when
//! an actor stands on the ground, and when the world has come to rest.

pub mod bundles;

use vstd::prelude::*;
use crate::GameState;
use crate::contains_entity;

verus! {

/// The collision group of the player.
pub const PLAYER: u32 = 0x01;

/// The collision group of walls.
pub const WALL: u32 = 0x02;

/// The collision group of the ground.
pub const GROUND: u32 = 0x04;

/// The collision group of projectiles.
pub const PROJECTILE: u32 = 0x08;

/// The collision group of enemies.
pub const ENEMY: u32 = 0x10;

/// How far below an actor the ground may lie for the actor to stand on it.
pub const GROUND_RAY_LENGTH: u32 = 4;

/// The phase that follows once the physics bodies have come to rest.
pub const NEXT_STATE: GameState = GameState::Playing;

/// The groups that a body belongs to and the groups that it may touch, each
/// as a set of bits.
#[derive(Clone, Copy, Debug, PartialEq, Eq, Structural)]
pub struct CollisionGroups {
    pub memberships: u32,
    pub filters: u32,
}

impl CollisionGroups {
    /// Two bodies touch when each belongs to a group that the other may
    /// touch.
    pub open spec fn spec_interacts(self, other: CollisionGroups) -> bool {
        (self.memberships & other.filters) != 0 && (other.memberships & self.filters) != 0
    }

    /// The groups of a body that belongs to `memberships` and may touch `filters`.
    pub fn new(memberships: u32, filters: u32) -> (groups: CollisionGroups)
        ensures
            groups == (CollisionGroups { memberships, filters }),
    {
        CollisionGroups { memberships, filters }
    }

    /// Whether a body with these groups and one with `other` may touch.
    pub fn interacts(self, other: CollisionGroups) -> (touching: bool)
        ensures
            touching == self.spec_interacts(other),
            touching == other.spec_interacts(self),
    {
        (self.memberships & other.filters) != 0 && (other.memberships & self.filters) != 0
    }

    /// The player touches enemies, ground, walls and projectiles.
    pub open spec fn player() -> CollisionGroups {
        CollisionGroups { memberships: PLAYER, filters: 0x1e }
    }

    /// Enemies touch the player, ground and walls.
    pub open spec fn enemy() -> CollisionGroups {
        CollisionGroups { memberships: ENEMY, filters: 0x07 }
    }

    /// Projectiles touch the player, ground and walls.
    pub open spec fn projectile() -> CollisionGroups {
        CollisionGroups { memberships: PROJECTILE, filters: 0x07 }
    }

    /// Level tiles, ground and walls alike, stand in the ground group and
    /// touch the player, enemies and projectiles.
    pub open spec fn tile() -> CollisionGroups {
        CollisionGroups { memberships: GROUND, filters: 0x19 }
    }
}

/// The collision policy of the game: the player touches everything else,
/// enemies and projectiles stand on the level but pass through each other
/// and through their own kind, and level tiles do not touch each other.
pub proof fn lemma_collision_policy()
    ensures
        CollisionGroups::player().spec_interacts(CollisionGroups::enemy()),
        CollisionGroups::player().spec_interacts(CollisionGroups::projectile()),
        CollisionGroups::player().spec_interacts(CollisionGroups::tile()),
        CollisionGroups::enemy().spec_interacts(CollisionGroups::tile()),
        CollisionGroups::projectile().spec_interacts(CollisionGroups::tile()),
        !CollisionGroups::enemy().spec_interacts(CollisionGroups::projectile()),
        !CollisionGroups::enemy().spec_interacts(CollisionGroups::enemy()),
        !CollisionGroups::projectile().spec_interacts(CollisionGroups::projectile()),
        !CollisionGroups::tile().spec_interacts(CollisionGroups::tile()),
        !CollisionGroups::player().spec_interacts(CollisionGroups::player()),
{
    assert(0x01u32 & 0x07u32 != 0) by (bit_vector);
    assert(0x10u32 & 0x1eu32 != 0) by (bit_vector);
    assert(0x08u32 & 0x1eu32 != 0) by (bit_vector);
    assert(0x04u32 & 0x1eu32 != 0) by (bit_vector);
    assert(0x01u32 & 0x19u32 != 0) by (bit_vector);
    assert(0x04u32 & 0x07u32 != 0) by (bit_vector);
    assert(0x10u32 & 0x19u32 != 0) by (bit_vector);
    assert(0x08u32 & 0x19u32 != 0) by (bit_vector);
    assert(0x10u32 & 0x07u32 == 0) by (bit_vector);
    assert(0x08u32 & 0x07u32 == 0) by (bit_vector);
    assert(0x04u32 & 0x19u32 == 0) by (bit_vector);
    assert(0x01u32 & 0x1eu32 == 0) by (bit_vector);
}

/// An actor stands on the ground when some entity is, all at once, in
/// contact with it, registered as ground, and hit by the short ray cast
/// straight down from the actor.
pub open spec fn grounded(colliding: Seq<u64>, grounds: Seq<u64>, ray_hits: Seq<u64>) -> bool {
    exists|entity: u64|
        #![trigger colliding.contains(entity)]
        colliding.contains(entity) && grounds.contains(entity) && ray_hits.contains(entity)
}

/// Decides whether an actor stands on the ground, from the entities that it
/// is in contact with, the entities registered as ground, and the entities
/// that the downward ray from the actor hits within `GROUND_RAY_LENGTH`.
pub fn check_if_grounded(colliding: &Vec<u64>, grounds: &Vec<u64>, ray_hits: &Vec<u64>) -> (on_ground: bool)
    ensures
        on_ground == grounded(colliding@, grounds@, ray_hits@),
{
    let mut i: usize = 0;
    while i < colliding.len()
        invariant
            0 <= i <= colliding@.len(),
            forall|j: int|
                0 <= j < i ==> !(grounds@.contains(#[trigger] colliding@[j]) && ray_hits@.contains(
                    colliding@[j],
                )),
        decreases colliding@.len() - i,
    {
        let entity: u64 = colliding[i];
        if contains_entity(grounds, entity) && contains_entity(ray_hits, entity) {
            assert(colliding@.contains(entity));
            return true;
        }
        i += 1;
    }
    assert forall|entity: u64|
        #![trigger colliding@.contains(entity)]
        colliding@.contains(entity) implies !(grounds@.contains(entity) && ray_hits@.contains(
        entity,
    )) by {
        let j = choose|j: int| 0 <= j < colliding@.len() && colliding@[j] == entity;
        assert(colliding@[j] == entity);
    }
    false
}

/// Contact alone does not make ground: an actor none of whose contacts is
/// registered as ground is not grounded, whatever the ray hits. A wall that
/// the actor leans against is such a contact.
pub proof fn lemma_contact_without_ground_is_not_grounded(
    colliding: Seq<u64>,
    grounds: Seq<u64>,
    ray_hits: Seq<u64>,
)
    requires
        forall|entity: u64| colliding.contains(entity) ==> !grounds.contains(entity),
    ensures
        !grounded(colliding, grounds, ray_hits),
{
}

/// Contact with the ground from the side does not count either: without a
/// ray hit on an entity that is both touched and ground, the actor is not
/// grounded.
pub proof fn lemma_ground_needs_ray_confirmation(
    colliding: Seq<u64>,
    grounds: Seq<u64>,
    ray_hits: Seq<u64>,
)
    requires
        forall|entity: u64|
            colliding.contains(entity) && grounds.contains(entity) ==> !ray_hits.contains(entity),
    ensures
        !grounded(colliding, grounds, ray_hits),
{
}

/// Some list of contacts holds `entity`.
pub open spec fn touched(contacts: Seq<Vec<u64>>, entity: u64) -> bool {
    exists|i: int| 0 <= i < contacts.len() && (#[trigger] contacts[i])@.contains(entity)
}

/// Whether `entity` occurs in one of the lists of contacts.
pub fn is_touched(contacts: &Vec<Vec<u64>>, entity: u64) -> (found: bool)
    ensures
        found == touched(contacts@, entity),
{
    let mut i: usize = 0;
    while i < contacts.len()
        invariant
            0 <= i <= contacts@.len(),
            forall|j: int| 0 <= j < i ==> !(#[trigger] contacts@[j])@.contains(entity),
        decreases contacts@.len() - i,
    {
        if contains_entity(&contacts[i], entity) {
            return true;
        }
        i += 1;
    }
    false
}

/// What is asked for while the physics bodies come to rest: the next
/// phase once no body is left unsettled, and nothing before.
pub open spec fn settle_request(unsettled_bodies: usize) -> Option<GameState> {
    if unsettled_bodies == 0 {
        Some(NEXT_STATE)
    } else {
        None
    }
}

/// Asks for the next phase once no body is left unsettled.
pub fn next_state_after_physics_settle(unsettled_bodies: usize) -> (request: Option<GameState>)
    ensures
        request == settle_request(unsettled_bodies),
{
    if unsettled_bodies == 0 {
        Some(NEXT_STATE)
    } else {
        None
    }
}

} // verus!

//! Clocks: the projectiles that an enemy spews. Each lives for a fixed time
//! and kills the player on contact.

use vstd::prelude::*;
use crate::enemy::EnemyAction;
use crate::enemy::EnemyActor;
use crate::math::Position;
use crate::math::Velocity;
use crate::physics::bundles::ClockPhysicsBundle;
use crate::physics::bundles::Collider;
use crate::physics::bundles::RigidBody;
use crate::physics::CollisionGroups;
use crate::physics::is_touched;
use crate::player::PlayerActor;
use crate::player::changed;

verus! {

/// Nanoseconds that a clock lives.
pub const CLOCK_LIFETIME: u64 = 5_000_000_000;

/// Number of frames on the sprite sheet of the clocks.
pub const CLOCK_FRAME_COUNT: usize = 6;

/// A projectile, with the nanoseconds that it has left to live.
#[derive(Clone, Copy, Debug, PartialEq, Eq, Structural)]
pub struct Clock {
    pub lifetime: u64,
}

/// What a clock carries when it is brought into the world.
#[derive(Clone, Copy, Debug, PartialEq, Eq, Structural)]
pub struct ClockBundle {
    pub clock: Clock,
    pub physics: ClockPhysicsBundle,
}

impl ClockBundle {
    /// A clock with its whole life before it.
    pub open spec fn initial() -> ClockBundle {
        ClockBundle {
            clock: Clock { lifetime: CLOCK_LIFETIME },
            physics: ClockPhysicsBundle {
                rigid_body: RigidBody::Dynamic,
                collider: Collider::Ball { diameter: 9 },
                collision_groups: CollisionGroups::projectile(),
                velocity: Velocity { x: 0, y: 0 },
            },
        }
    }
}

impl Default for ClockBundle {
    fn default() -> (bundle: ClockBundle)
        ensures
            bundle == ClockBundle::initial(),
    {
        ClockBundle {
            clock: Clock { lifetime: CLOCK_LIFETIME },
            physics: ClockPhysicsBundle::default(),
        }
    }
}

/// A clock in the registry of actors.
#[derive(Clone, Copy, Debug, PartialEq, Eq, Structural)]
pub struct ClockActor {
    pub entity: u64,
    pub clock: Clock,
}

/// What makes an entity spew clocks: where they appear relative to it, how
/// they fly, the nanoseconds between two of them, and whether the alarm has
/// been sounded for it.
#[derive(Clone, Copy, Debug, PartialEq, Eq, Structural)]
pub struct SpewClocks {
    pub source_position: Position,
    pub velocity: Velocity,
    pub rate_interval: u64,
    pub played_sound: bool,
}

/// A spewing entity in the registry of actors.
#[derive(Clone, Copy, Debug, PartialEq, Eq, Structural)]
pub struct Spewer {
    pub entity: u64,
    pub spew: SpewClocks,
}

/// A clock that is to be brought into the world as a child of `parent`.
#[derive(Clone, Copy, Debug, PartialEq, Eq, Structural)]
pub struct ClockSpawn {
    pub parent: u64,
    pub bundle: ClockBundle,
    pub position: Position,
    pub velocity: Velocity,
    pub sprite_index: usize,
}

/// What one round of spewing asks of the engine.
#[derive(Clone, Debug)]
pub struct SpewOutcome {
    /// The clocks to bring into the world, in the order of their parents.
    pub spawns: Vec<ClockSpawn>,
    /// Whether the alarm is to be resumed.
    pub resume_sound: bool,
}

impl Clock {
    /// The clock after `delta` nanoseconds: its lifetime runs down and stops
    /// at zero.
    pub open spec fn aged(self, delta: u64) -> Clock {
        Clock {
            lifetime: if delta >= self.lifetime {
                0
            } else {
                (self.lifetime - delta) as u64
            },
        }
    }

    /// The clock has no time left.
    pub open spec fn expired(self) -> bool {
        self.lifetime == 0
    }

    /// Lets `delta` nanoseconds pass for the clock.
    pub fn age(&mut self, delta: u64)
        ensures
            *final(self) == old(self).aged(delta),
    {
        self.lifetime = if delta >= self.lifetime {
            0
        } else {
            self.lifetime - delta
        };
    }

    /// Whether the clock has no time left.
    pub fn is_expired(&self) -> (gone: bool)
        ensures
            gone == self.expired(),
    {
        self.lifetime == 0
    }
}

impl ClockActor {
    /// The clock after `delta` nanoseconds, under the same entity.
    pub open spec fn aged(self, delta: u64) -> ClockActor {
        ClockActor { clock: self.clock.aged(delta), ..self }
    }
}

/// The clocks that are still alive after `delta` nanoseconds, each with its
/// lifetime run down, in their old order.
pub open spec fn surviving(clocks: Seq<ClockActor>, delta: u64) -> Seq<ClockActor>
    decreases clocks.len(),
{
    if clocks.len() == 0 {
        Seq::empty()
    } else {
        let earlier = surviving(clocks.drop_last(), delta);
        let last = clocks.last().aged(delta);
        if last.clock.expired() {
            earlier
        } else {
            earlier.push(last)
        }
    }
}

/// The entities of the clocks whose lifetime ends within `delta`
/// nanoseconds, in their old order.
pub open spec fn expiring(clocks: Seq<ClockActor>, delta: u64) -> Seq<u64>
    decreases clocks.len(),
{
    if clocks.len() == 0 {
        Seq::empty()
    } else {
        let earlier = expiring(clocks.drop_last(), delta);
        if clocks.last().aged(delta).clock.expired() {
            earlier.push(clocks.last().entity)
        } else {
            earlier
        }
    }
}

/// Lets `delta` nanoseconds pass for every clock. The clocks whose lifetime
/// has run out leave the registry; their entities are returned for removal.
pub fn update_clocks(clocks: &mut Vec<ClockActor>, delta: u64) -> (despawned: Vec<u64>)
    ensures
        final(clocks)@ == surviving(old(clocks)@, delta),
        despawned@ == expiring(old(clocks)@, delta),
{
    let mut kept: Vec<ClockActor> = Vec::new();
    let mut despawned: Vec<u64> = Vec::new();
    let mut i: usize = 0;
    assert(clocks@.take(0) =~= Seq::empty());
    while i < clocks.len()
        invariant
            clocks@ == old(clocks)@,
            0 <= i <= clocks@.len(),
            kept@ == surviving(clocks@.take(i as int), delta),
            despawned@ == expiring(clocks@.take(i as int), delta),
        decreases clocks@.len() - i,
    {
        let mut actor = clocks[i];
        actor.clock.age(delta);
        proof {
            let next = clocks@.take(i + 1);
            assert(next.drop_last() =~= clocks@.take(i as int));
            assert(next.last() == clocks@[i as int]);
            assert(actor == clocks@[i as int].aged(delta));
        }
        if actor.clock.is_expired() {
            despawned.push(actor.entity);
        } else {
            kept.push(actor);
        }
        i += 1;
    }
    assert(clocks@.take(i as int) =~= clocks@);
    *clocks = kept;
    despawned
}

/// A living clock loses time with every frame that takes time, and it
/// expires in exactly the frame in which its lifetime is used up.
pub proof fn lemma_lifetime_runs_down(clock: Clock, delta: u64)
    requires
        clock.lifetime > 0,
        delta > 0,
    ensures
        clock.aged(delta).lifetime < clock.lifetime,
        clock.aged(delta).expired() <==> delta >= clock.lifetime,
        !clock.aged(delta).expired() ==> clock.aged(delta).lifetime == clock.lifetime - delta,
{
}

/// `kept` is one of `clocks`, `delta` nanoseconds older.
pub open spec fn aged_from(clocks: Seq<ClockActor>, delta: u64, kept: ClockActor) -> bool {
    exists|i: int| 0 <= i < clocks.len() && (#[trigger] clocks[i]).aged(delta) == kept
}

/// `entity` is one of `clocks` whose lifetime ends within `delta`
/// nanoseconds.
pub open spec fn expires_among(clocks: Seq<ClockActor>, delta: u64, entity: u64) -> bool {
    exists|i: int|
        0 <= i < clocks.len() && (#[trigger] clocks[i]).aged(delta).clock.expired()
            && clocks[i].entity == entity
}

/// An update removes the clocks whose lifetime has run out and no others:
/// clock for clock, the one that expires is reported and the one that does
/// not is kept, and nothing else is kept or reported.
pub proof fn lemma_update_removes_exactly_the_expired(clocks: Seq<ClockActor>, delta: u64)
    ensures
        surviving(clocks, delta).len() + expiring(clocks, delta).len() == clocks.len(),
        forall|i: int|
            #![trigger clocks[i]]
            0 <= i < clocks.len() && clocks[i].aged(delta).clock.expired() ==> expiring(
                clocks,
                delta,
            ).contains(clocks[i].entity),
        forall|i: int|
            #![trigger clocks[i]]
            0 <= i < clocks.len() && !clocks[i].aged(delta).clock.expired() ==> surviving(
                clocks,
                delta,
            ).contains(clocks[i].aged(delta)),
        forall|k: int|
            #![trigger surviving(clocks, delta)[k]]
            0 <= k < surviving(clocks, delta).len() ==> !surviving(
                clocks,
                delta,
            )[k].clock.expired() && aged_from(clocks, delta, surviving(clocks, delta)[k]),
        forall|k: int|
            #![trigger expiring(clocks, delta)[k]]
            0 <= k < expiring(clocks, delta).len() ==> expires_among(
                clocks,
                delta,
                expiring(clocks, delta)[k],
            ),
    decreases clocks.len(),
{
    if clocks.len() > 0 {
        let earlier = clocks.drop_last();
        lemma_update_removes_exactly_the_expired(earlier, delta);
        let kept = surviving(clocks, delta);
        let gone = expiring(clocks, delta);
        let last = clocks.last().aged(delta);
        assert forall|i: int| #![trigger clocks[i]] 0 <= i < clocks.len() implies if clocks[i].aged(
            delta,
        ).clock.expired() {
            gone.contains(clocks[i].entity)
        } else {
            kept.contains(clocks[i].aged(delta))
        } by {
            if i < earlier.len() {
                assert(earlier[i] == clocks[i]);
                if clocks[i].aged(delta).clock.expired() {
                    let found = expiring(earlier, delta);
                    let k = choose|k: int| 0 <= k < found.len() && found[k] == earlier[i].entity;
                    assert(gone[k] == clocks[i].entity);
                } else {
                    let found = surviving(earlier, delta);
                    let k = choose|k: int|
                        0 <= k < found.len() && found[k] == earlier[i].aged(delta);
                    assert(kept[k] == clocks[i].aged(delta));
                }
            } else {
                if last.clock.expired() {
                    assert(gone[gone.len() - 1] == clocks[i].entity);
                } else {
                    assert(kept[kept.len() - 1] == last);
                }
            }
        }
        assert forall|k: int| #![trigger kept[k]] 0 <= k < kept.len() implies !kept[k].clock.expired()
            && aged_from(clocks, delta, kept[k]) by {
            if k < surviving(earlier, delta).len() {
                let found = surviving(earlier, delta)[k];
                assert(aged_from(earlier, delta, found));
                let i = choose|i: int|
                    0 <= i < earlier.len() && (#[trigger] earlier[i]).aged(delta) == found;
                assert(clocks[i].aged(delta) == kept[k]);
            } else {
                assert(clocks[clocks.len() - 1].aged(delta) == kept[k]);
            }
        }
        assert forall|k: int| #![trigger gone[k]] 0 <= k < gone.len() implies expires_among(
            clocks,
            delta,
            gone[k],
        ) by {
            if k < expiring(earlier, delta).len() {
                let found = expiring(earlier, delta)[k];
                assert(expires_among(earlier, delta, found));
                let i = choose|i: int|
                    0 <= i < earlier.len() && (#[trigger] earlier[i]).aged(delta).clock.expired()
                        && earlier[i].entity == found;
                assert(clocks[i] == earlier[i]);
            } else {
                assert(clocks[clocks.len() - 1].entity == gone[k]);
            }
        }
    }
}

/// Kills the player if any clock touches it: `contacts` holds, for each
/// clock, the entities that it is in contact with. Without a player nothing
/// happens.
pub fn check_collisions_with_player(contacts: &Vec<Vec<u64>>, player: &mut Option<PlayerActor>)
    ensures
        *final(player) == changed(*old(player), |actor: PlayerActor| actor.struck(contacts@)),
{
    match player {
        Some(actor) => {
            if is_touched(contacts, actor.entity) {
                actor.player.is_alive = false;
            }
        },
        None => {},
    }
}

impl SpewClocks {
    /// Whether a clock is due in the frame that ends at `now` and took
    /// `delta` nanoseconds: the frame has passed a multiple of the interval.
    /// With an interval of zero no clock is ever due.
    pub open spec fn due(self, now: u64, delta: u64) -> bool {
        self.rate_interval > 0 && now % self.rate_interval < delta
    }

    /// Whether a clock is due in the frame that ends at `now` and took
    /// `delta` nanoseconds.
    pub fn is_due(&self, now: u64, delta: u64) -> (due: bool)
        ensures
            due == self.due(now, delta),
    {
        self.rate_interval > 0 && now % self.rate_interval < delta
    }
}

impl Spewer {
    /// The clock that this entity spews, showing the frame that `seed`
    /// selects from the sprite sheet.
    pub open spec fn spawn(self, seed: usize) -> ClockSpawn {
        ClockSpawn {
            parent: self.entity,
            bundle: ClockBundle::initial(),
            position: self.spew.source_position,
            velocity: self.spew.velocity,
            sprite_index: seed % CLOCK_FRAME_COUNT,
        }
    }

    /// The entity after a round of spewing: the alarm counts as sounded once
    /// the sound was ready for it.
    pub open spec fn after_round(self, sound_ready: bool) -> Spewer {
        Spewer {
            spew: SpewClocks { played_sound: self.spew.played_sound || sound_ready, ..self.spew },
            ..self
        }
    }

    /// Describes the clock that this entity spews, with the frame that
    /// `seed` selects.
    pub fn spawn_clock(&self, seed: usize) -> (clock: ClockSpawn)
        ensures
            clock == self.spawn(seed),
            clock.sprite_index < CLOCK_FRAME_COUNT,
    {
        ClockSpawn {
            parent: self.entity,
            bundle: ClockBundle::default(),
            position: self.spew.source_position,
            velocity: self.spew.velocity,
            sprite_index: seed % CLOCK_FRAME_COUNT,
        }
    }
}

impl EnemyActor {
    /// The interval at which the enemy spews clocks: that of its spew
    /// attack, while the attack's timer has not run out.
    pub open spec fn spew_interval(self) -> Option<u64> {
        match self.enemy.current_action {
            EnemyAction::SpewAttack { spew_timer, spew_rate, .. } => if spew_timer.finished {
                None
            } else {
                Some(spew_rate)
            },
            _ => None,
        }
    }

    /// What makes this enemy spew clocks from `source_position` with
    /// `velocity`, if it is in a spew attack whose timer still runs. The
    /// alarm has not been sounded for it yet.
    pub open spec fn spewer(self, source_position: Position, velocity: Velocity) -> Option<Spewer> {
        match self.spew_interval() {
            Some(rate_interval) => Some(
                Spewer {
                    entity: self.entity,
                    spew: SpewClocks {
                        source_position,
                        velocity,
                        rate_interval,
                        played_sound: false,
                    },
                },
            ),
            None => None,
        }
    }

    /// Tells what makes this enemy spew clocks, if it spews.
    pub fn spewing(&self, source_position: Position, velocity: Velocity) -> (spewer: Option<Spewer>)
        ensures
            spewer == self.spewer(source_position, velocity),
    {
        match self.enemy.current_action {
            EnemyAction::SpewAttack { spew_timer, spew_rate, .. } => {
                if spew_timer.finished() {
                    None
                } else {
                    Some(
                        Spewer {
                            entity: self.entity,
                            spew: SpewClocks {
                                source_position,
                                velocity,
                                rate_interval: spew_rate,
                                played_sound: false,
                            },
                        },
                    )
                }
            },
            _ => None,
        }
    }
}

/// The entities for which a clock is due, in their old order.
pub open spec fn due_spewers(spewers: Seq<Spewer>, now: u64, delta: u64) -> Seq<Spewer>
    decreases spewers.len(),
{
    if spewers.len() == 0 {
        Seq::empty()
    } else {
        let earlier = due_spewers(spewers.drop_last(), now, delta);
        if spewers.last().spew.due(now, delta) {
            earlier.push(spewers.last())
        } else {
            earlier
        }
    }
}

/// Some entity has not had its alarm sounded yet.
pub open spec fn sound_wanted(spewers: Seq<Spewer>) -> bool {
    exists|i: int| 0 <= i < spewers.len() && !(#[trigger] spewers[i]).spew.played_sound
}

/// Draws a `usize` with `rand::random`. Nothing is claimed of the value.
#[verifier::external_body]
fn random_seed() -> usize {
    rand::random::<usize>()
}

/// One round of spewing, for the frame that ends at `now` and took `delta`
/// nanoseconds.
///
/// Every entity for which a clock is due spews one, with a frame of the
/// sprite sheet drawn at random. The alarm is resumed if the sound is ready
/// and some entity has not had it sounded yet; while the sound is not ready
/// those entities keep waiting for it.
pub fn spew_clocks(spewers: &mut Vec<Spewer>, now: u64, delta: u64, sound_ready: bool) -> (outcome:
    SpewOutcome)
    ensures
        final(spewers)@.len() == old(spewers)@.len(),
        forall|i: int|
            #![trigger final(spewers)@[i]]
            0 <= i < old(spewers)@.len() ==> final(spewers)@[i] == old(spewers)@[i].after_round(
                sound_ready,
            ),
        outcome.resume_sound == (sound_ready && sound_wanted(old(spewers)@)),
        outcome.spawns@.len() == due_spewers(old(spewers)@, now, delta).len(),
        forall|k: int|
            #![trigger outcome.spawns@[k]]
            0 <= k < outcome.spawns@.len() ==> outcome.spawns@[k].sprite_index
                < CLOCK_FRAME_COUNT && outcome.spawns@[k] == due_spewers(
                old(spewers)@,
                now,
                delta,
            )[k].spawn(outcome.spawns@[k].sprite_index),
{
    let mut spawns: Vec<ClockSpawn> = Vec::new();
    let mut resume_sound = false;
    let mut i: usize = 0;
    assert(spewers@.take(0) =~= Seq::empty());
    while i < spewers.len()
        invariant
            spewers@.len() == old(spewers)@.len(),
            0 <= i <= spewers@.len(),
            forall|j: int|
                #![trigger spewers@[j]]
                0 <= j < i ==> spewers@[j] == old(spewers)@[j].after_round(sound_ready),
            forall|j: int|
                #![trigger spewers@[j]]
                i <= j < spewers@.len() ==> spewers@[j] == old(spewers)@[j],
            resume_sound == (sound_ready && sound_wanted(old(spewers)@.take(i as int))),
            spawns@.len() == due_spewers(old(spewers)@.take(i as int), now, delta).len(),
            forall|k: int|
                #![trigger spawns@[k]]
                0 <= k < spawns@.len() ==> {
                    &&& spawns@[k].sprite_index < CLOCK_FRAME_COUNT
                    &&& spawns@[k] == due_spewers(old(spewers)@.take(i as int), now, delta)[k].spawn(
                        spawns@[k].sprite_index,
                    )
                },
        decreases spewers@.len() - i,
    {
        let ghost before = old(spewers)@.take(i as int);
        let ghost next = old(spewers)@.take(i + 1);
        proof {
            assert(next.drop_last() =~= before);
            assert(next.last() == old(spewers)@[i as int]);
            assert(sound_wanted(next) == (sound_wanted(before) || !old(
                spewers,
            )@[i as int].spew.played_sound)) by {
                if sound_wanted(before) {
                    let j = choose|j: int|
                        0 <= j < before.len() && !(#[trigger] before[j]).spew.played_sound;
                    assert(!next[j].spew.played_sound);
                }
                if !old(spewers)@[i as int].spew.played_sound {
                    assert(!next[i as int].spew.played_sound);
                }
                if sound_wanted(next) {
                    let j = choose|j: int|
                        0 <= j < next.len() && !(#[trigger] next[j]).spew.played_sound;
                    if j < i {
                        assert(!before[j].spew.played_sound);
                    }
                }
            }
        }
        let spewer = spewers[i];
        if !spewer.spew.played_sound && sound_ready {
            resume_sound = true;
            spewers[i].spew.played_sound = true;
        }
        if spewer.spew.is_due(now, delta) {
            let seed = random_seed();
            let clock = spewer.spawn_clock(seed);
            spawns.push(clock);
        }
        i += 1;
    }
    assert(old(spewers)@.take(i as int) =~= old(spewers)@);
    SpewOutcome { spawns, resume_sound }
}

/// Empties the registry of clocks and names the entities to remove.
pub fn cleanup(clocks: &mut Vec<ClockActor>) -> (removed: Vec<u64>)
    ensures
        final(clocks)@.len() == 0,
        removed@.len() == old(clocks)@.len(),
        forall|i: int| 0 <= i < removed@.len() ==> removed@[i] == old(clocks)@[i].entity,
{
    let mut removed: Vec<u64> = Vec::new();
    let mut i: usize = 0;
    while i < clocks.len()
        invariant
            clocks@ == old(clocks)@,
            0 <= i <= clocks@.len(),
            removed@.len() == i,
            forall|j: int| 0 <= j < i ==> removed@[j] == clocks@[j].entity,
        decreases clocks@.len() - i,
    {
        removed.push(clocks[i].entity);
        i += 1;
    }
    clocks.clear();
    removed
}

} // verus!

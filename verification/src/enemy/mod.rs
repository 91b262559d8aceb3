//! Enemies: what they know, what they are doing, and how one frame of their
//! behaviour is put together.

pub mod animation;
pub mod clock;
pub mod state;

use vstd::prelude::*;
use crate::Sprite;
use crate::math::Position;
use crate::math::Velocity;
use crate::timer::Timer;
use crate::timer::TimerMode;
use crate::enemy::animation::AnimationSettings;
use crate::enemy::state::EnemyState;
use crate::physics::check_if_grounded;
use crate::physics::grounded;
use crate::physics::is_touched;
use crate::player::PlayerActor;
use crate::player::changed;

verus! {

/// Distance at which a patrolling enemy starts to pursue.
pub const PATROL_RANGE: i32 = 160;

/// Distance below which an enemy commits to an attack.
pub const ATTACK_RANGE: i32 = 80;

/// Seconds between two reversals of a patrolling enemy.
pub const PATROL_TURN_SECONDS: u32 = 3;

/// Speed of a patrolling enemy.
pub const PATROL_SPEED: i32 = 120;

/// Speed of a pursuing enemy.
pub const PURSUE_SPEED: i32 = 200;

/// Seconds an enemy crouches before it lunges.
pub const BEFORE_LUNGE_SECONDS: u32 = 1;

/// Seconds an enemy rests on the ground after a lunge.
pub const AFTER_LUNGE_SECONDS: u32 = 2;

/// Speed, sideways and upwards, with which an enemy lunges.
pub const LUNGE_SPEED: i32 = 200;

/// Seconds a spew attack lasts.
pub const SPEW_SECONDS: u32 = 5;

/// Nanoseconds between two projectiles of a spew attack.
pub const SPEW_INTERVAL: u64 = 1_000_000_000;

/// Lowest speed of a spewed projectile.
pub const SPEW_MIN_VELOCITY: i32 = 100;

/// Highest speed of a spewed projectile.
pub const SPEW_MAX_VELOCITY: i32 = 200;

/// Lowest launch angle of a spewed projectile, in degrees.
pub const SPEW_MIN_ANGLE: i32 = 0;

/// Highest launch angle of a spewed projectile, in degrees.
pub const SPEW_MAX_ANGLE: i32 = 90;

/// What an enemy is doing, with the timers and speeds of that activity.
#[derive(Clone, Copy, Debug, PartialEq, Eq, Structural)]
pub enum EnemyAction {
    Patrol { direction_timer: Timer, speed: i32 },
    Pursue { speed: i32 },
    LungeAttack { before_lunge_timer: Timer, after_lunge_timer: Timer, speed: i32 },
    SpewAttack {
        spew_timer: Timer,
        spew_rate: u64,
        spew_min_velocity: i32,
        spew_max_velocity: i32,
        min_angle: i32,
        max_angle: i32,
    },
}

impl EnemyAction {
    /// The state that this action carries out.
    pub open spec fn spec_state(self) -> EnemyState {
        match self {
            EnemyAction::Patrol { .. } => EnemyState::Patrol,
            EnemyAction::Pursue { .. } => EnemyState::Pursue,
            EnemyAction::LungeAttack { .. } => EnemyState::LungeAttack,
            EnemyAction::SpewAttack { .. } => EnemyState::SpewAttack,
        }
    }

    /// The action of an enemy that has just entered `state`: every timer at
    /// its full duration.
    pub open spec fn fresh(state: EnemyState) -> EnemyAction {
        match state {
            EnemyState::Patrol => EnemyAction::Patrol {
                direction_timer: Timer::fresh(3_000_000_000, TimerMode::Repeating),
                speed: PATROL_SPEED,
            },
            EnemyState::Pursue => EnemyAction::Pursue { speed: PURSUE_SPEED },
            EnemyState::LungeAttack => EnemyAction::LungeAttack {
                before_lunge_timer: Timer::fresh(1_000_000_000, TimerMode::Once),
                after_lunge_timer: Timer::fresh(2_000_000_000, TimerMode::Once),
                speed: LUNGE_SPEED,
            },
            EnemyState::SpewAttack => EnemyAction::SpewAttack {
                spew_timer: Timer::fresh(5_000_000_000, TimerMode::Once),
                spew_rate: SPEW_INTERVAL,
                spew_min_velocity: SPEW_MIN_VELOCITY,
                spew_max_velocity: SPEW_MAX_VELOCITY,
                min_angle: SPEW_MIN_ANGLE,
                max_angle: SPEW_MAX_ANGLE,
            },
        }
    }

    /// The state that this action carries out.
    pub fn state(&self) -> (state: EnemyState)
        ensures
            state == self.spec_state(),
    {
        match self {
            EnemyAction::Patrol { .. } => EnemyState::Patrol,
            EnemyAction::Pursue { .. } => EnemyState::Pursue,
            EnemyAction::LungeAttack { .. } => EnemyState::LungeAttack,
            EnemyAction::SpewAttack { .. } => EnemyState::SpewAttack,
        }
    }

    /// Builds the action for an enemy that has just entered `state`.
    pub fn for_state(state: EnemyState) -> (action: EnemyAction)
        ensures
            action == EnemyAction::fresh(state),
            action.spec_state() == state,
    {
        match state {
            EnemyState::Patrol => EnemyAction::Patrol {
                direction_timer: Timer::from_seconds(PATROL_TURN_SECONDS, TimerMode::Repeating),
                speed: PATROL_SPEED,
            },
            EnemyState::Pursue => EnemyAction::Pursue { speed: PURSUE_SPEED },
            EnemyState::LungeAttack => EnemyAction::LungeAttack {
                before_lunge_timer: Timer::from_seconds(BEFORE_LUNGE_SECONDS, TimerMode::Once),
                after_lunge_timer: Timer::from_seconds(AFTER_LUNGE_SECONDS, TimerMode::Once),
                speed: LUNGE_SPEED,
            },
            EnemyState::SpewAttack => EnemyAction::SpewAttack {
                spew_timer: Timer::from_seconds(SPEW_SECONDS, TimerMode::Once),
                spew_rate: SPEW_INTERVAL,
                spew_min_velocity: SPEW_MIN_VELOCITY,
                spew_max_velocity: SPEW_MAX_VELOCITY,
                min_angle: SPEW_MIN_ANGLE,
                max_angle: SPEW_MAX_ANGLE,
            },
        }
    }
}

impl Default for EnemyAction {
    fn default() -> (action: EnemyAction)
        ensures
            action == EnemyAction::fresh(EnemyState::Patrol),
    {
        EnemyAction::for_state(EnemyState::Patrol)
    }
}

/// The logical part of an enemy.
#[derive(Clone, Copy, Debug, PartialEq, Eq, Structural)]
pub struct Enemy {
    pub facing_left: bool,
    pub patrol_range: i32,
    pub attack_range: i32,
    pub is_grounded: bool,
    pub target: Option<Position>,
    pub current_action: EnemyAction,
    /// The action to install at the start of the next action processing.
    pub next_action: Option<EnemyAction>,
}

impl Enemy {
    /// An enemy as it is placed in a level.
    pub open spec fn initial() -> Enemy {
        Enemy {
            facing_left: true,
            patrol_range: PATROL_RANGE,
            attack_range: ATTACK_RANGE,
            is_grounded: true,
            target: None,
            current_action: EnemyAction::fresh(EnemyState::Patrol),
            next_action: None,
        }
    }
}

impl Default for Enemy {
    fn default() -> (enemy: Enemy)
        ensures
            enemy == Enemy::initial(),
    {
        Enemy {
            facing_left: true,
            patrol_range: PATROL_RANGE,
            attack_range: ATTACK_RANGE,
            is_grounded: true,
            target: None,
            current_action: EnemyAction::for_state(EnemyState::Patrol),
            next_action: None,
        }
    }
}

/// One enemy in the registry of actors: its identity, the position and
/// velocity that the physics engine reported for it, its state, its logical
/// part and its sprite.
#[derive(Clone, Debug)]
pub struct EnemyActor {
    pub entity: u64,
    pub position: Position,
    pub velocity: Velocity,
    pub state: EnemyState,
    /// Set by whatever assigns `state`, cleared once the matching action has
    /// been staged.
    pub state_changed: bool,
    pub enemy: Enemy,
    pub sprite: Sprite,
    pub animation: AnimationSettings,
}

impl EnemyActor {
    /// A newly placed enemy: patrolling, at rest, showing the first frame of
    /// the patrol animation, its state marked as changed so that the first
    /// frame stages a fresh patrol action.
    pub open spec fn is_spawn_of(self, entity: u64, position: Position) -> bool {
        &&& self.entity == entity
        &&& self.position == position
        &&& self.velocity == Velocity { x: 0, y: 0 }
        &&& self.state == EnemyState::Patrol
        &&& self.state_changed
        &&& self.enemy == Enemy::initial()
        &&& self.sprite == Sprite::initial()
        &&& self.animation.is_reset_for(EnemyState::Patrol)
    }

    /// The action that will be current once staging has been resolved
    /// carries out the enemy's state, unless a change of state is still
    /// waiting to be staged.
    pub open spec fn coherent(self) -> bool {
        self.state_changed || match self.enemy.next_action {
            Some(next) => next.spec_state() == self.state,
            None => self.enemy.current_action.spec_state() == self.state,
        }
    }

    /// Nothing is staged, and the current action carries out the enemy's
    /// state unless the state has just changed.
    pub open spec fn settled(self) -> bool {
        &&& self.enemy.next_action is None
        &&& self.state_changed || self.enemy.current_action.spec_state() == self.state
    }

    /// Places an enemy.
    pub fn new(entity: u64, position: Position) -> (actor: EnemyActor)
        ensures
            actor.is_spawn_of(entity, position),
            actor.settled(),
    {
        EnemyActor {
            entity,
            position,
            velocity: Velocity { x: 0, y: 0 },
            state: EnemyState::Patrol,
            state_changed: true,
            enemy: Enemy::default(),
            sprite: Sprite::default(),
            animation: AnimationSettings::for_state(EnemyState::Patrol),
        }
    }

    /// The enemy after the two distance rules, the patrol/pursue rule first
    /// and the attack rule second, so that the attack decides where both
    /// apply; `attack` is the state that was drawn for the attack rule.
    /// Without a player the enemy is left alone.
    pub open spec fn sensed(self, player: Option<Position>, attack: EnemyState) -> EnemyActor {
        match player {
            Some(position) => self.patrol_pursue_step(position).attacked_with(position, attack),
            None => self,
        }
    }

    /// The enemy after one frame of behaviour in which `attack` was drawn
    /// for the attack rule: the distance rules decide its state, a change
    /// of state stages a fresh action, and action processing installs and
    /// carries out the action.
    pub open spec fn ticked_with(
        self,
        player: Option<Position>,
        attack: EnemyState,
        delta: u64,
    ) -> EnemyActor {
        self.sensed(player, attack).state_change_step().processed(delta)
    }

    /// `after` is this enemy after one frame of behaviour, for one of the two
    /// attack states that can be drawn.
    pub open spec fn frame_leads_to(
        self,
        after: EnemyActor,
        player: Option<Position>,
        delta: u64,
    ) -> bool {
        exists|attack: EnemyState|
            attack.is_attack() && after == #[trigger] self.ticked_with(player, attack, delta)
    }

    /// The enemy after one frame of behaviour with the given roll.
    pub open spec fn ticked(self, player: Option<Position>, roll: int, delta: u64) -> EnemyActor {
        self.ticked_with(player, state::attack_state_for(roll), delta)
    }

    /// The enemy once it has been told whether it stands on the ground.
    pub open spec fn with_grounding(self, on_ground: bool) -> EnemyActor {
        EnemyActor { enemy: Enemy { is_grounded: on_ground, ..self.enemy }, ..self }
    }

    /// Runs one frame of behaviour for this enemy, with a roll that the
    /// caller drew for the attack rule. An enemy that was coherent before
    /// the frame is settled after it.
    pub fn tick(&mut self, player_position: Option<Position>, roll: i32, delta: u64)
        ensures
            *final(self) == old(self).ticked(player_position, roll as int, delta),
            old(self).coherent() ==> final(self).settled(),
    {
        if let Some(player) = player_position {
            self.patrol_pursue(player);
            self.attack(player, roll);
        }
        self.stage_action();
        self.process(delta);
        proof {
            if old(self).coherent() {
                lemma_tick_settles(
                    *old(self),
                    player_position,
                    state::attack_state_for(roll as int),
                    delta,
                );
            }
        }
    }

    /// Tells the enemy whether it stands on the ground, from its contacts,
    /// the registered ground and the hits of its downward ray.
    pub fn sense_ground(&mut self, colliding: &Vec<u64>, grounds: &Vec<u64>, ray_hits: &Vec<u64>)
        ensures
            *final(self) == old(self).with_grounding(grounded(colliding@, grounds@, ray_hits@)),
    {
        self.enemy.is_grounded = check_if_grounded(colliding, grounds, ray_hits);
    }
}

/// The distance rules keep an enemy coherent: whenever they assign a state
/// they mark it as changed.
pub proof fn lemma_rules_keep_coherence(actor: EnemyActor, player: Position, attack: EnemyState)
    requires
        actor.coherent(),
    ensures
        actor.patrol_pursue_step(player).coherent(),
        actor.attacked_with(player, attack).coherent(),
{
}

/// Staging keeps an enemy coherent and leaves no change of state unseen:
/// afterwards the staged action, or else the current one, carries out the
/// state.
pub proof fn lemma_staging_keeps_coherence(actor: EnemyActor)
    requires
        actor.coherent(),
    ensures
        actor.state_change_step().coherent(),
        !actor.state_change_step().state_changed,
{
}

/// Action processing settles a coherent enemy: nothing stays staged, and the
/// current action carries out the state unless processing itself has just
/// changed the state.
pub proof fn lemma_processing_settles(actor: EnemyActor, delta: u64)
    requires
        actor.coherent(),
    ensures
        actor.processed(delta).settled(),
        actor.processed(delta).coherent(),
{
    let installed = actor.installed();
    assert(installed.enemy.next_action is None);
    assert(installed.state_changed || installed.enemy.current_action.spec_state()
        == installed.state);
    let acted = installed.acted(delta);
    assert(acted.enemy.current_action.spec_state() == installed.enemy.current_action.spec_state());
    assert(acted.enemy.next_action is None);
    assert(acted.state_changed || acted.state == installed.state);
}

/// At the start of every frame the current action of an enemy carries out
/// its state, except in the frame that follows a change of state: a frame
/// of behaviour takes a coherent enemy to a settled one, and a newly placed
/// enemy is settled.
pub proof fn lemma_tick_settles(
    actor: EnemyActor,
    player: Option<Position>,
    attack: EnemyState,
    delta: u64,
)
    requires
        actor.coherent(),
    ensures
        actor.ticked_with(player, attack, delta).settled(),
        actor.ticked_with(player, attack, delta).coherent(),
        !actor.ticked_with(player, attack, delta).state_changed ==> actor.ticked_with(
            player,
            attack,
            delta,
        ).enemy.current_action.spec_state() == actor.ticked_with(player, attack, delta).state,
{
    let sensed = actor.sensed(player, attack);
    assert(sensed.coherent()) by {
        match player {
            Some(position) => {
                lemma_rules_keep_coherence(actor, position, attack);
                lemma_rules_keep_coherence(actor.patrol_pursue_step(position), position, attack);
            },
            None => {},
        }
    }
    lemma_staging_keeps_coherence(sensed);
    lemma_processing_settles(sensed.state_change_step(), delta);
}

/// What else runs between two frames of behaviour leaves a settled enemy
/// settled: grounding and animation touch neither the state nor the
/// actions. A settled enemy is coherent, so the next frame of behaviour
/// settles it again.
pub proof fn lemma_settled_between_frames(
    actor: EnemyActor,
    on_ground: bool,
    delta: u64,
    controlled: EnemyActor,
)
    requires
        actor.settled(),
        actor.animation_controlled(controlled),
    ensures
        actor.coherent(),
        actor.with_grounding(on_ground).settled(),
        actor.animated(delta).settled(),
        controlled.settled(),
{
}

/// Runs one frame of behaviour for every enemy, system by system in the
/// order that keeps them from reading what another has half written: the
/// patrol/pursue rule, the attack rule, the staging of actions, and action
/// processing. Each enemy ends as one frame of behaviour leaves it, for
/// the attack state that was drawn for it, and every enemy that was
/// coherent is settled.
pub fn update_enemies(actors: &mut Vec<EnemyActor>, player_position: Option<Position>, delta: u64)
    ensures
        final(actors)@.len() == old(actors)@.len(),
        forall|i: int|
            #![trigger final(actors)@[i]]
            0 <= i < old(actors)@.len() ==> old(actors)@[i].frame_leads_to(
                final(actors)@[i],
                player_position,
                delta,
            ),
        forall|i: int|
            #![trigger final(actors)@[i]]
            0 <= i < old(actors)@.len() && old(actors)@[i].coherent()
                ==> final(actors)@[i].settled(),
{
    state::patrol_pursue_state_system(actors, player_position);
    let ghost pursued = actors@;
    state::attack_state_system(actors, player_position);
    let ghost attacked = actors@;
    animation::process_state_change(actors);
    animation::process_actions(actors, delta);
    proof {
        assert forall|i: int| #![trigger actors@[i]] 0 <= i < old(actors)@.len() implies {
            &&& old(actors)@[i].frame_leads_to(actors@[i], player_position, delta)
            &&& old(actors)@[i].coherent() ==> actors@[i].settled()
        } by {
            let before = old(actors)@[i];
            let attack = match player_position {
                Some(player) => if pursued[i].attack_triggered(player) {
                    attacked[i].state
                } else {
                    EnemyState::LungeAttack
                },
                None => EnemyState::LungeAttack,
            };
            assert(attacked[i] == before.sensed(player_position, attack));
            assert(actors@[i] == before.ticked_with(player_position, attack, delta));
            if before.coherent() {
                lemma_tick_settles(before, player_position, attack, delta);
            }
        }
    }
}

/// Places an enemy for every marker of the level, in the order of the
/// markers.
pub fn initialize_enemies(markers: &Vec<(u64, Position)>) -> (actors: Vec<EnemyActor>)
    ensures
        actors@.len() == markers@.len(),
        forall|i: int|
            #![trigger actors@[i]]
            0 <= i < actors@.len() ==> actors@[i].is_spawn_of(markers@[i].0, markers@[i].1),
{
    let mut actors: Vec<EnemyActor> = Vec::new();
    let mut i: usize = 0;
    while i < markers.len()
        invariant
            0 <= i <= markers@.len(),
            actors@.len() == i,
            forall|j: int|
                #![trigger actors@[j]]
                0 <= j < i ==> actors@[j].is_spawn_of(markers@[j].0, markers@[j].1),
        decreases markers@.len() - i,
    {
        let marker = markers[i];
        actors.push(EnemyActor::new(marker.0, marker.1));
        i += 1;
    }
    actors
}

/// Tells every enemy whether it stands on the ground. `contacts` and
/// `ray_hits` hold, enemy by enemy, the entities that it is in contact with
/// and the entities that its downward ray hits. An enemy for which either
/// is missing counts as touching and hitting nothing.
pub fn update_grounding(
    actors: &mut Vec<EnemyActor>,
    contacts: &Vec<Vec<u64>>,
    grounds: &Vec<u64>,
    ray_hits: &Vec<Vec<u64>>,
)
    ensures
        final(actors)@.len() == old(actors)@.len(),
        forall|i: int|
            #![trigger final(actors)@[i]]
            0 <= i < old(actors)@.len() ==> final(actors)@[i] == old(actors)@[i].with_grounding(
                i < contacts@.len() && i < ray_hits@.len() && grounded(
                    contacts@[i]@,
                    grounds@,
                    ray_hits@[i]@,
                ),
            ),
{
    let mut i: usize = 0;
    while i < actors.len()
        invariant
            actors@.len() == old(actors)@.len(),
            0 <= i <= actors@.len(),
            forall|j: int|
                #![trigger actors@[j]]
                0 <= j < i ==> actors@[j] == old(actors)@[j].with_grounding(
                    j < contacts@.len() && j < ray_hits@.len() && grounded(
                        contacts@[j]@,
                        grounds@,
                        ray_hits@[j]@,
                    ),
                ),
            forall|j: int|
                #![trigger actors@[j]]
                i <= j < actors@.len() ==> actors@[j] == old(actors)@[j],
        decreases actors@.len() - i,
    {
        if i < contacts.len() && i < ray_hits.len() {
            actors[i].sense_ground(&contacts[i], grounds, &ray_hits[i]);
        } else {
            actors[i].enemy.is_grounded = false;
        }
        i += 1;
    }
}

/// Kills the player if any enemy touches it: `contacts` holds, for each
/// enemy, the entities that it is in contact with. Without a player nothing
/// happens.
pub fn check_collisions_with_player(contacts: &Vec<Vec<u64>>, player: &mut Option<PlayerActor>)
    ensures
        *final(player) == changed(*old(player), |actor: PlayerActor| actor.struck(contacts@)),
{
    match player {
        Some(actor) => {
            if is_touched(contacts, actor.entity) {
                actor.player.is_alive = false;
            }
        },
        None => {},
    }
}

/// Empties the registry of enemies and names the entities to remove.
pub fn cleanup(actors: &mut Vec<EnemyActor>) -> (removed: Vec<u64>)
    ensures
        final(actors)@.len() == 0,
        removed@.len() == old(actors)@.len(),
        forall|i: int| 0 <= i < removed@.len() ==> removed@[i] == old(actors)@[i].entity,
{
    let mut removed: Vec<u64> = Vec::new();
    let mut i: usize = 0;
    while i < actors.len()
        invariant
            actors@ == old(actors)@,
            0 <= i <= actors@.len(),
            removed@.len() == i,
            forall|j: int| 0 <= j < i ==> removed@[j] == actors@[j].entity,
        decreases actors@.len() - i,
    {
        removed.push(actors[i].entity);
        i += 1;
    }
    actors.clear();
    removed
}

} // verus!

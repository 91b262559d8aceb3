//! The states of an enemy and the rules by which distance to the player
//! moves it from one to another.

use vstd::prelude::*;
use vstd::set_lib::lemma_int_range;
use vstd::set_lib::set_int_range;
use crate::math::Position;
use crate::enemy::Enemy;
use crate::enemy::EnemyActor;

verus! {

/// What an enemy is up to.
#[derive(Clone, Copy, Debug, PartialEq, Eq, Hash, Structural)]
pub enum EnemyState {
    /// Search for the player.
    Patrol,
    /// Move towards the player until in range to attack.
    Pursue,
    /// Jump at the player.
    LungeAttack,
    /// Spew lots of clocks at the player.
    SpewAttack,
}

impl Default for EnemyState {
    fn default() -> (state: EnemyState)
        ensures
            state == EnemyState::Patrol,
    {
        EnemyState::Patrol
    }
}

impl EnemyState {
    /// The state is one of the two attacks.
    pub open spec fn is_attack(self) -> bool {
        self is LungeAttack || self is SpewAttack
    }
}

/// Rolls below this choose the lunge attack.
pub const LUNGE_ROLL_LIMIT: i32 = 60;

/// Rolls from the lunge limit up to this choose the spew attack.
pub const ATTACK_ROLL_LIMIT: i32 = 100;

/// The attack that a roll selects: below sixty the lunge, from sixty up to a
/// hundred the spew attack. A roll of a hundred or more cannot come from a
/// proper die; it selects no attack and sends the enemy back on patrol.
pub open spec fn attack_state_for(roll: int) -> EnemyState {
    if roll < LUNGE_ROLL_LIMIT {
        EnemyState::LungeAttack
    } else if roll < ATTACK_ROLL_LIMIT {
        EnemyState::SpewAttack
    } else {
        EnemyState::Patrol
    }
}

/// Selects the attack for a roll.
pub fn attack_state_from_roll(roll: i32) -> (state: EnemyState)
    ensures
        state == attack_state_for(roll as int),
{
    if roll < LUNGE_ROLL_LIMIT {
        EnemyState::LungeAttack
    } else if roll < ATTACK_ROLL_LIMIT {
        EnemyState::SpewAttack
    } else {
        EnemyState::Patrol
    }
}

/// Of the hundred rolls that a die can show, sixty select the lunge, forty
/// the spew attack, and none sends the enemy back on patrol.
pub proof fn lemma_attack_shares()
    ensures
        Set::new(|roll: int| 0 <= roll < 100 && attack_state_for(roll) is LungeAttack).len() == 60,
        Set::new(|roll: int| 0 <= roll < 100 && attack_state_for(roll) is SpewAttack).len() == 40,
        forall|roll: int| 0 <= roll < 100 ==> attack_state_for(roll).is_attack(),
{
    lemma_int_range(0, 60);
    lemma_int_range(60, 100);
    assert(Set::new(|roll: int| 0 <= roll < 100 && attack_state_for(roll) is LungeAttack)
        =~= set_int_range(0, 60));
    assert(Set::new(|roll: int| 0 <= roll < 100 && attack_state_for(roll) is SpewAttack)
        =~= set_int_range(60, 100));
}

/// Draws an integer from `0..limit` with `rand::Rng::gen_range` on the
/// generator of `rand::thread_rng`. A positive limit keeps the range from
/// being empty, where the call would panic. The value lies inside the range.
#[verifier::external_body]
fn roll_below(limit: i32) -> (roll: i32)
    requires
        0 < limit,
    ensures
        0 <= roll < limit,
{
    rand::Rng::gen_range(&mut rand::thread_rng(), 0..limit)
}

/// A weighted-random attack state: whatever the die shows, it is one of the
/// two attacks.
pub fn get_random_attack_state() -> (state: EnemyState)
    ensures
        state.is_attack(),
{
    let roll: i32 = roll_below(ATTACK_ROLL_LIMIT);
    attack_state_from_roll(roll)
}

impl EnemyActor {
    /// The enemy after the patrol/pursue rule: a patrolling enemy with the
    /// player inside its patrol range pursues and remembers where the player
    /// is; a pursuing enemy with the player outside that range forgets its
    /// target and patrols again; any other enemy is left alone.
    pub open spec fn patrol_pursue_step(self, player: Position) -> EnemyActor {
        if self.state is Patrol && player.spec_within(self.position, self.enemy.patrol_range) {
            EnemyActor {
                state: EnemyState::Pursue,
                state_changed: true,
                enemy: Enemy { target: Some(player), ..self.enemy },
                ..self
            }
        } else if self.state is Pursue && !player.spec_within(
            self.position,
            self.enemy.patrol_range,
        ) {
            EnemyActor {
                state: EnemyState::Patrol,
                state_changed: true,
                enemy: Enemy { target: None, ..self.enemy },
                ..self
            }
        } else {
            self
        }
    }

    /// Whether the attack rule applies: the enemy patrols or pursues and the
    /// player is closer than its attack range.
    pub open spec fn attack_triggered(self, player: Position) -> bool {
        (self.state is Patrol || self.state is Pursue) && player.spec_closer_than(
            self.position,
            self.enemy.attack_range,
        )
    }

    /// The enemy after the attack rule, where `attack` is the state that was
    /// drawn for it: an enemy that the rule applies to takes that state and
    /// aims at the player; any other enemy is left alone.
    pub open spec fn attacked_with(self, player: Position, attack: EnemyState) -> EnemyActor {
        if self.attack_triggered(player) {
            EnemyActor {
                state: attack,
                state_changed: true,
                enemy: Enemy { target: Some(player), ..self.enemy },
                ..self
            }
        } else {
            self
        }
    }

    /// The enemy after the attack rule with the given roll.
    pub open spec fn attack_step(self, player: Position, roll: int) -> EnemyActor {
        self.attacked_with(player, attack_state_for(roll))
    }

    /// Applies the patrol/pursue rule to this enemy.
    pub fn patrol_pursue(&mut self, player_position: Position)
        ensures
            *final(self) == old(self).patrol_pursue_step(player_position),
    {
        let in_range = player_position.within(self.position, self.enemy.patrol_range);
        match self.state {
            EnemyState::Patrol => {
                if in_range {
                    self.enemy.target = Some(player_position);
                    self.state = EnemyState::Pursue;
                    self.state_changed = true;
                }
            },
            EnemyState::Pursue => {
                if !in_range {
                    self.enemy.target = None;
                    self.state = EnemyState::Patrol;
                    self.state_changed = true;
                }
            },
            _ => {},
        }
    }

    /// Whether the attack rule applies to this enemy.
    pub fn in_attack_range(&self, player_position: Position) -> (triggered: bool)
        ensures
            triggered == self.attack_triggered(player_position),
    {
        match self.state {
            EnemyState::Patrol | EnemyState::Pursue => player_position.closer_than(
                self.position,
                self.enemy.attack_range,
            ),
            _ => false,
        }
    }

    /// Applies the attack rule to this enemy, with a roll that the caller
    /// drew.
    pub fn attack(&mut self, player_position: Position, roll: i32)
        ensures
            *final(self) == old(self).attack_step(player_position, roll as int),
    {
        if self.in_attack_range(player_position) {
            self.enemy.target = Some(player_position);
            self.state = attack_state_from_roll(roll);
            self.state_changed = true;
        }
    }
}

/// Applies the patrol/pursue rule to every enemy. Without a player nothing
/// changes.
pub fn patrol_pursue_state_system(actors: &mut Vec<EnemyActor>, player_position: Option<Position>)
    ensures
        final(actors)@.len() == old(actors)@.len(),
        player_position is None ==> final(actors)@ == old(actors)@,
        player_position matches Some(player) ==> forall|i: int|
            #![trigger final(actors)@[i]]
            0 <= i < old(actors)@.len() ==> final(actors)@[i] == old(actors)@[i].patrol_pursue_step(
                player,
            ),
{
    if let Some(player) = player_position {
        let mut i: usize = 0;
        while i < actors.len()
            invariant
                actors@.len() == old(actors)@.len(),
                0 <= i <= actors@.len(),
                forall|j: int|
                    #![trigger actors@[j]]
                    0 <= j < i ==> actors@[j] == old(actors)@[j].patrol_pursue_step(player),
                forall|j: int|
                    #![trigger actors@[j]]
                    i <= j < actors@.len() ==> actors@[j] == old(actors)@[j],
            decreases actors@.len() - i,
        {
            actors[i].patrol_pursue(player);
            i += 1;
        }
    }
}

/// Applies the attack rule to every enemy, drawing a fresh roll for each one
/// that it applies to. Such an enemy ends in one of the two attack states,
/// aimed at the player; the others are left alone. Without a player nothing
/// changes.
pub fn attack_state_system(actors: &mut Vec<EnemyActor>, player_position: Option<Position>)
    ensures
        final(actors)@.len() == old(actors)@.len(),
        player_position is None ==> final(actors)@ == old(actors)@,
        player_position matches Some(player) ==> forall|i: int|
            #![trigger final(actors)@[i]]
            0 <= i < old(actors)@.len() ==> final(actors)@[i] == old(actors)@[i].attacked_with(
                player,
                final(actors)@[i].state,
            ),
        player_position matches Some(player) ==> forall|i: int|
            #![trigger final(actors)@[i]]
            0 <= i < old(actors)@.len() && old(actors)@[i].attack_triggered(player)
                ==> final(actors)@[i].state.is_attack(),
{
    if let Some(player) = player_position {
        let mut i: usize = 0;
        while i < actors.len()
            invariant
                actors@.len() == old(actors)@.len(),
                0 <= i <= actors@.len(),
                forall|j: int|
                    #![trigger actors@[j]]
                    0 <= j < i ==> {
                        &&& actors@[j] == old(actors)@[j].attacked_with(player, actors@[j].state)
                        &&& old(actors)@[j].attack_triggered(player) ==> actors@[j].state.is_attack()
                    },
                forall|j: int|
                    #![trigger actors@[j]]
                    i <= j < actors@.len() ==> actors@[j] == old(actors)@[j],
            decreases actors@.len() - i,
        {
            if actors[i].in_attack_range(player) {
                let roll: i32 = roll_below(ATTACK_ROLL_LIMIT);
                actors[i].attack(player, roll);
            }
            i += 1;
        }
    }
}

} // verus!

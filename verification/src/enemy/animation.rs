//! What an enemy does each frame: staging and carrying out its action,
//! turning to face where it goes, and cycling the frames of its sprite.

use vstd::prelude::*;
use crate::AnimationTimer;
use crate::FRAME_INTERVAL;
use crate::Sprite;
use crate::math::Velocity;
use crate::timer::Timer;
use crate::timer::TimerMode;
use crate::enemy::Enemy;
use crate::enemy::EnemyAction;
use crate::enemy::EnemyActor;
use crate::enemy::state::EnemyState;

verus! {

/// The frames of the sprite sheet that an enemy cycles through in each
/// state, the timer that paces them, and the state they were chosen for.
#[derive(Clone, Debug)]
pub struct AnimationSettings {
    pub frames: Vec<usize>,
    pub animation_timer: AnimationTimer,
    pub last_state: EnemyState,
}

/// The frames of the sprite sheet that show an enemy in `state`.
pub open spec fn frames_for(state: EnemyState) -> Seq<usize> {
    match state {
        EnemyState::Patrol => seq![0usize, 1usize],
        EnemyState::Pursue => seq![0usize, 1usize, 2usize],
        EnemyState::LungeAttack => seq![2usize],
        EnemyState::SpewAttack => seq![3usize],
    }
}

/// `position` is where `current` first occurs in `frames`.
pub open spec fn is_first_position(frames: Seq<usize>, current: usize, position: int) -> bool {
    &&& 0 <= position < frames.len()
    &&& frames[position] == current
    &&& forall|earlier: int| 0 <= earlier < position ==> frames[earlier] != current
}

/// The frame that follows `current` in `frames`, wrapping from the last
/// frame to the first. A frame that is not in the list is followed by the
/// first frame of the list. With an empty list the frame stays.
pub open spec fn next_frame(frames: Seq<usize>, current: usize) -> usize {
    if frames.len() == 0 {
        current
    } else if frames.contains(current) {
        let position = choose|position: int| is_first_position(frames, current, position);
        if position + 1 == frames.len() {
            frames[0]
        } else {
            frames[position + 1]
        }
    } else {
        frames[0]
    }
}

/// Finds the frame that follows `current` in `frames`.
pub fn advance_frame(frames: &Vec<usize>, current: usize) -> (next: usize)
    ensures
        next == next_frame(frames@, current),
{
    if frames.len() == 0 {
        return current;
    }
    let mut i: usize = 0;
    while i < frames.len()
        invariant
            0 <= i <= frames@.len(),
            frames@.len() > 0,
            forall|j: int| 0 <= j < i ==> frames@[j] != current,
        decreases frames@.len() - i,
    {
        if frames[i] == current {
            proof {
                assert(is_first_position(frames@, current, i as int));
                assert(frames@.contains(current));
                let chosen = choose|position: int| is_first_position(frames@, current, position);
                assert(is_first_position(frames@, current, chosen));
                assert(chosen == i) by {
                    if chosen < i {
                        assert(frames@[chosen] != current);
                    } else if chosen > i {
                        assert(frames@[i as int] != current);
                    }
                }
            }
            if i + 1 == frames.len() {
                return frames[0];
            } else {
                return frames[i + 1];
            }
        }
        i += 1;
    }
    frames[0]
}

impl AnimationSettings {
    /// The settings are those of an enemy that has just entered `state`: the
    /// frames of that state, paced by a fresh repeating timer.
    pub open spec fn is_reset_for(self, state: EnemyState) -> bool {
        &&& self.frames@ == frames_for(state)
        &&& self.animation_timer == AnimationTimer {
            timer: Timer::fresh(FRAME_INTERVAL, TimerMode::Repeating),
            frame_count: frames_for(state).len() as usize,
        }
        &&& self.last_state == state
    }

    /// The animation of an enemy that has just entered `state`.
    pub fn for_state(state: EnemyState) -> (settings: AnimationSettings)
        ensures
            settings.is_reset_for(state),
    {
        let mut frames: Vec<usize> = Vec::new();
        match state {
            EnemyState::Patrol => {
                frames.push(0);
                frames.push(1);
            },
            EnemyState::Pursue => {
                frames.push(0);
                frames.push(1);
                frames.push(2);
            },
            EnemyState::LungeAttack => {
                frames.push(2);
            },
            EnemyState::SpewAttack => {
                frames.push(3);
            },
        }
        assert(frames@ =~= frames_for(state));
        let frame_count: usize = frames.len();
        AnimationSettings {
            frames,
            animation_timer: AnimationTimer {
                timer: Timer::new(FRAME_INTERVAL, TimerMode::Repeating),
                frame_count,
            },
            last_state: state,
        }
    }
}

impl EnemyActor {
    /// How far the target lies to the right of the enemy; zero without a
    /// target.
    pub open spec fn target_delta_x(self) -> int {
        match self.enemy.target {
            Some(target) => target.x - self.position.x,
            None => 0,
        }
    }

    /// The enemy after a pending change of state has been answered: a fresh
    /// action for the new state is staged, and the change counts as seen.
    pub open spec fn state_change_step(self) -> EnemyActor {
        if self.state_changed {
            EnemyActor {
                state_changed: false,
                enemy: Enemy { next_action: Some(EnemyAction::fresh(self.state)), ..self.enemy },
                ..self
            }
        } else {
            self
        }
    }

    /// The enemy after a staged action, if there is one, has replaced the
    /// current one.
    pub open spec fn installed(self) -> EnemyActor {
        match self.enemy.next_action {
            Some(next) => EnemyActor {
                enemy: Enemy { current_action: next, next_action: None, ..self.enemy },
                ..self
            },
            None => self,
        }
    }

    /// The horizontal velocity of an enemy that moves at `speed` the way it
    /// faces.
    pub open spec fn facing_velocity(facing_left: bool, speed: i32) -> i64 {
        if facing_left {
            (-(speed as int)) as i64
        } else {
            speed as i64
        }
    }

    /// The enemy after its current action has been carried out for `delta`
    /// nanoseconds.
    ///
    /// On patrol the direction timer runs; each time it completes the enemy
    /// turns round, and it walks the way it faces. In pursuit it runs
    /// towards its target. In a lunge the first timer runs; on the frame it
    /// completes the enemy leaps the way it faces, and on later frames, while
    /// the enemy stands on the ground, the second timer runs and its
    /// completion sends the enemy back on patrol. In a spew attack the timer
    /// runs and its completion sends the enemy back on patrol.
    pub open spec fn acted(self, delta: u64) -> EnemyActor {
        match self.enemy.current_action {
            EnemyAction::Patrol { direction_timer, speed } => {
                let timer = direction_timer.ticked(delta);
                let facing_left = if timer.spec_just_finished() {
                    !self.enemy.facing_left
                } else {
                    self.enemy.facing_left
                };
                EnemyActor {
                    velocity: Velocity {
                        x: Self::facing_velocity(facing_left, speed),
                        y: self.velocity.y,
                    },
                    enemy: Enemy {
                        facing_left,
                        current_action: EnemyAction::Patrol { direction_timer: timer, speed },
                        ..self.enemy
                    },
                    ..self
                }
            },
            EnemyAction::Pursue { speed } => EnemyActor {
                velocity: Velocity {
                    x: Self::facing_velocity(self.target_delta_x() <= 0, speed),
                    y: self.velocity.y,
                },
                ..self
            },
            EnemyAction::LungeAttack { before_lunge_timer, after_lunge_timer, speed } => {
                let before = before_lunge_timer.ticked(delta);
                if before.spec_just_finished() {
                    EnemyActor {
                        velocity: Velocity {
                            x: Self::facing_velocity(self.enemy.facing_left, speed),
                            y: speed as i64,
                        },
                        enemy: Enemy {
                            current_action: EnemyAction::LungeAttack {
                                before_lunge_timer: before,
                                after_lunge_timer,
                                speed,
                            },
                            ..self.enemy
                        },
                        ..self
                    }
                } else if before.finished && self.enemy.is_grounded {
                    let after = after_lunge_timer.ticked(delta);
                    EnemyActor {
                        state: if after.spec_just_finished() {
                            EnemyState::Patrol
                        } else {
                            self.state
                        },
                        state_changed: self.state_changed || after.spec_just_finished(),
                        enemy: Enemy {
                            current_action: EnemyAction::LungeAttack {
                                before_lunge_timer: before,
                                after_lunge_timer: after,
                                speed,
                            },
                            ..self.enemy
                        },
                        ..self
                    }
                } else {
                    EnemyActor {
                        enemy: Enemy {
                            current_action: EnemyAction::LungeAttack {
                                before_lunge_timer: before,
                                after_lunge_timer,
                                speed,
                            },
                            ..self.enemy
                        },
                        ..self
                    }
                }
            },
            EnemyAction::SpewAttack {
                spew_timer,
                spew_rate,
                spew_min_velocity,
                spew_max_velocity,
                min_angle,
                max_angle,
            } => {
                let timer = spew_timer.ticked(delta);
                EnemyActor {
                    state: if timer.spec_just_finished() {
                        EnemyState::Patrol
                    } else {
                        self.state
                    },
                    state_changed: self.state_changed || timer.spec_just_finished(),
                    enemy: Enemy {
                        current_action: EnemyAction::SpewAttack {
                            spew_timer: timer,
                            spew_rate,
                            spew_min_velocity,
                            spew_max_velocity,
                            min_angle,
                            max_angle,
                        },
                        ..self.enemy
                    },
                    ..self
                }
            },
        }
    }

    /// The way the enemy is heading: the sign of its horizontal velocity or,
    /// for an enemy that stands still in an attack, the side on which its
    /// target lies. Zero where neither decides.
    pub open spec fn heading(self) -> int {
        if self.velocity.x > 0 {
            1
        } else if self.velocity.x < 0 {
            -1
        } else if self.state.is_attack() && self.target_delta_x() > 0 {
            1
        } else if self.state.is_attack() && self.target_delta_x() < 0 {
            -1
        } else {
            0
        }
    }

    /// The enemy after it has turned to face the way it is heading. Where
    /// nothing decides the heading it keeps facing the way it did.
    pub open spec fn faced(self) -> EnemyActor {
        EnemyActor {
            enemy: Enemy {
                facing_left: if self.heading() == 0 {
                    self.enemy.facing_left
                } else {
                    self.heading() < 0
                },
                ..self.enemy
            },
            ..self
        }
    }

    /// The enemy after one round of action processing: the staged action is
    /// installed, the current action is carried out, and the enemy turns to
    /// face the way it is heading.
    pub open spec fn processed(self, delta: u64) -> EnemyActor {
        self.installed().acted(delta).faced()
    }

    /// The enemy after its animation has run for `delta` nanoseconds: each
    /// time the timer completes the sprite moves on to the next frame, and
    /// the sprite is mirrored unless the enemy faces left.
    pub open spec fn animated(self, delta: u64) -> EnemyActor {
        let timer = self.animation.animation_timer.timer.ticked(delta);
        EnemyActor {
            sprite: Sprite {
                index: if timer.spec_just_finished() {
                    next_frame(self.animation.frames@, self.sprite.index)
                } else {
                    self.sprite.index
                },
                flip_x: !self.enemy.facing_left,
            },
            animation: AnimationSettings {
                animation_timer: AnimationTimer { timer, ..self.animation.animation_timer },
                ..self.animation
            },
            ..self
        }
    }

    /// `after` is this enemy once its animation has been matched to its
    /// state. Nothing happens while the animation is the one of the state.
    /// Otherwise the sprite falls back to the first frame of the old list
    /// (if it has one) and the animation becomes that of the new state.
    pub open spec fn animation_controlled(self, after: EnemyActor) -> bool {
        if self.state == self.animation.last_state {
            after == self
        } else {
            &&& after.animation.is_reset_for(self.state)
            &&& after.sprite == Sprite {
                index: if self.animation.frames@.len() > 0 {
                    self.animation.frames@[0]
                } else {
                    self.sprite.index
                },
                ..self.sprite
            }
            &&& after == EnemyActor { animation: after.animation, sprite: after.sprite, ..self }
        }
    }

    /// Stages a fresh action if the state has changed.
    pub fn stage_action(&mut self)
        ensures
            *final(self) == old(self).state_change_step(),
    {
        if self.state_changed {
            self.enemy.next_action = Some(EnemyAction::for_state(self.state));
            self.state_changed = false;
        }
    }

    /// Makes the staged action, if there is one, the current action.
    pub fn install_next_action(&mut self)
        ensures
            *final(self) == old(self).installed(),
    {
        if let Some(next) = self.enemy.next_action {
            self.enemy.current_action = next;
            self.enemy.next_action = None;
        }
    }

    /// How far the target lies to the right of the enemy.
    pub fn target_offset_x(&self) -> (delta: i64)
        ensures
            delta == self.target_delta_x(),
    {
        match self.enemy.target {
            Some(target) => target.x as i64 - self.position.x as i64,
            None => 0,
        }
    }

    /// Carries out the current action for `delta` nanoseconds.
    pub fn act(&mut self, delta: u64)
        ensures
            *final(self) == old(self).acted(delta),
    {
        let action = self.enemy.current_action;
        match action {
            EnemyAction::Patrol { direction_timer, speed } => {
                let mut timer = direction_timer;
                timer.tick(delta);
                if timer.just_finished() {
                    self.enemy.facing_left = !self.enemy.facing_left;
                }
                self.velocity.x = if self.enemy.facing_left {
                    -(speed as i64)
                } else {
                    speed as i64
                };
                self.enemy.current_action = EnemyAction::Patrol { direction_timer: timer, speed };
            },
            EnemyAction::Pursue { speed } => {
                self.velocity.x = if self.target_offset_x() > 0 {
                    speed as i64
                } else {
                    -(speed as i64)
                };
            },
            EnemyAction::LungeAttack { before_lunge_timer, after_lunge_timer, speed } => {
                let mut before = before_lunge_timer;
                let mut after = after_lunge_timer;
                before.tick(delta);
                if before.just_finished() {
                    self.velocity.x = if self.enemy.facing_left {
                        -(speed as i64)
                    } else {
                        speed as i64
                    };
                    self.velocity.y = speed as i64;
                } else if before.finished() && self.enemy.is_grounded {
                    after.tick(delta);
                    if after.just_finished() {
                        self.state = EnemyState::Patrol;
                        self.state_changed = true;
                    }
                }
                self.enemy.current_action = EnemyAction::LungeAttack {
                    before_lunge_timer: before,
                    after_lunge_timer: after,
                    speed,
                };
            },
            EnemyAction::SpewAttack {
                spew_timer,
                spew_rate,
                spew_min_velocity,
                spew_max_velocity,
                min_angle,
                max_angle,
            } => {
                let mut timer = spew_timer;
                timer.tick(delta);
                if timer.just_finished() {
                    self.state = EnemyState::Patrol;
                    self.state_changed = true;
                }
                self.enemy.current_action = EnemyAction::SpewAttack {
                    spew_timer: timer,
                    spew_rate,
                    spew_min_velocity,
                    spew_max_velocity,
                    min_angle,
                    max_angle,
                };
            },
        }
    }

    /// Turns the enemy to face the way it is heading.
    pub fn resolve_facing(&mut self)
        ensures
            *final(self) == old(self).faced(),
    {
        let delta_x = self.target_offset_x();
        let attacking = match self.state {
            EnemyState::LungeAttack | EnemyState::SpewAttack => true,
            _ => false,
        };
        if self.velocity.x > 0 {
            self.enemy.facing_left = false;
        } else if self.velocity.x < 0 {
            self.enemy.facing_left = true;
        } else if attacking && delta_x > 0 {
            self.enemy.facing_left = false;
        } else if attacking && delta_x < 0 {
            self.enemy.facing_left = true;
        }
    }

    /// One round of action processing for this enemy.
    pub fn process(&mut self, delta: u64)
        ensures
            *final(self) == old(self).processed(delta),
    {
        self.install_next_action();
        self.act(delta);
        self.resolve_facing();
    }

    /// Matches the animation to the enemy's state.
    pub fn control_animation(&mut self)
        ensures
            old(self).animation_controlled(*final(self)),
    {
        if self.state != self.animation.last_state {
            if self.animation.frames.len() > 0 {
                self.sprite.index = self.animation.frames[0];
            }
            self.animation = AnimationSettings::for_state(self.state);
        }
    }

    /// Runs the animation for `delta` nanoseconds.
    pub fn animate(&mut self, delta: u64)
        ensures
            *final(self) == old(self).animated(delta),
    {
        self.animation.animation_timer.timer.tick(delta);
        if self.animation.animation_timer.timer.just_finished() {
            self.sprite.index = advance_frame(&self.animation.frames, self.sprite.index);
        }
        self.sprite.flip_x = !self.enemy.facing_left;
    }
}

/// After action processing an enemy that has a heading faces that way, and
/// an enemy without one faces as its action left it.
pub proof fn lemma_processed_faces_heading(actor: EnemyActor, delta: u64)
    ensures
        actor.processed(delta).heading() == actor.installed().acted(delta).heading(),
        actor.processed(delta).heading() < 0 ==> actor.processed(delta).enemy.facing_left,
        actor.processed(delta).heading() > 0 ==> !actor.processed(delta).enemy.facing_left,
        actor.processed(delta).heading() == 0 ==> actor.processed(delta).enemy.facing_left
            == actor.installed().acted(delta).enemy.facing_left,
{
}

/// An enemy turns round exactly when its heading turns round: of two rounds
/// of action processing that both leave the enemy with a heading, the enemy
/// faces differently after them if and only if the headings differ. The
/// heading is the sign of the horizontal velocity or, for an enemy that
/// stands still in an attack, the side on which its target lies.
pub proof fn lemma_facing_flips_with_heading(
    earlier: EnemyActor,
    earlier_delta: u64,
    later: EnemyActor,
    later_delta: u64,
)
    requires
        earlier.processed(earlier_delta).heading() != 0,
        later.processed(later_delta).heading() != 0,
    ensures
        (earlier.processed(earlier_delta).enemy.facing_left != later.processed(
            later_delta,
        ).enemy.facing_left) <==> (earlier.processed(earlier_delta).heading() != later.processed(
            later_delta,
        ).heading()),
{
    lemma_processed_faces_heading(earlier, earlier_delta);
    lemma_processed_faces_heading(later, later_delta);
}

/// Runs the animation of every enemy for `delta` nanoseconds.
pub fn update_enemy_animation(actors: &mut Vec<EnemyActor>, delta: u64)
    ensures
        final(actors)@.len() == old(actors)@.len(),
        forall|i: int|
            #![trigger final(actors)@[i]]
            0 <= i < old(actors)@.len() ==> final(actors)@[i] == old(actors)@[i].animated(delta),
{
    let mut i: usize = 0;
    while i < actors.len()
        invariant
            actors@.len() == old(actors)@.len(),
            0 <= i <= actors@.len(),
            forall|j: int|
                #![trigger actors@[j]]
                0 <= j < i ==> actors@[j] == old(actors)@[j].animated(delta),
            forall|j: int|
                #![trigger actors@[j]]
                i <= j < actors@.len() ==> actors@[j] == old(actors)@[j],
        decreases actors@.len() - i,
    {
        actors[i].animate(delta);
        i += 1;
    }
}

/// Matches the animation of every enemy to its state.
pub fn animation_controller(actors: &mut Vec<EnemyActor>)
    ensures
        final(actors)@.len() == old(actors)@.len(),
        forall|i: int|
            #![trigger final(actors)@[i]]
            0 <= i < old(actors)@.len() ==> old(actors)@[i].animation_controlled(final(actors)@[i]),
{
    let mut i: usize = 0;
    while i < actors.len()
        invariant
            actors@.len() == old(actors)@.len(),
            0 <= i <= actors@.len(),
            forall|j: int|
                #![trigger actors@[j]]
                0 <= j < i ==> old(actors)@[j].animation_controlled(actors@[j]),
            forall|j: int|
                #![trigger actors@[j]]
                i <= j < actors@.len() ==> actors@[j] == old(actors)@[j],
        decreases actors@.len() - i,
    {
        actors[i].control_animation();
        i += 1;
    }
}

/// One round of action processing for every enemy.
pub fn process_actions(actors: &mut Vec<EnemyActor>, delta: u64)
    ensures
        final(actors)@.len() == old(actors)@.len(),
        forall|i: int|
            #![trigger final(actors)@[i]]
            0 <= i < old(actors)@.len() ==> final(actors)@[i] == old(actors)@[i].processed(delta),
{
    let mut i: usize = 0;
    while i < actors.len()
        invariant
            actors@.len() == old(actors)@.len(),
            0 <= i <= actors@.len(),
            forall|j: int|
                #![trigger actors@[j]]
                0 <= j < i ==> actors@[j] == old(actors)@[j].processed(delta),
            forall|j: int|
                #![trigger actors@[j]]
                i <= j < actors@.len() ==> actors@[j] == old(actors)@[j],
        decreases actors@.len() - i,
    {
        actors[i].process(delta);
        i += 1;
    }
}

/// Stages a fresh action for every enemy whose state has changed.
pub fn process_state_change(actors: &mut Vec<EnemyActor>)
    ensures
        final(actors)@.len() == old(actors)@.len(),
        forall|i: int|
            #![trigger final(actors)@[i]]
            0 <= i < old(actors)@.len() ==> final(actors)@[i] == old(actors)@[i].state_change_step(),
{
    let mut i: usize = 0;
    while i < actors.len()
        invariant
            actors@.len() == old(actors)@.len(),
            0 <= i <= actors@.len(),
            forall|j: int|
                #![trigger actors@[j]]
                0 <= j < i ==> actors@[j] == old(actors)@[j].state_change_step(),
            forall|j: int|
                #![trigger actors@[j]]
                i <= j < actors@.len() ==> actors@[j] == old(actors)@[j],
        decreases actors@.len() - i,
    {
        actors[i].stage_action();
        i += 1;
    }
}

} // verus!

//! Game logic of a small 2D platformer: the enemy state machine, the player
//! controller, ground detection, projectiles and sprite animation.
//!
//! Everything here works on plain integer values. Lengths are whole world
//! units, times are nanoseconds, and entities are named by stable `u64`
//! identifiers. The embedding engine owns rendering, physics integration and
//! input sampling; it hands snapshots to these functions each frame and
//! applies what they return.

pub mod audio;
pub mod enemy;
pub mod level;
pub mod math;
pub mod physics;
pub mod player;
pub mod timer;
pub mod video;

use vstd::prelude::*;
use crate::timer::Timer;

verus! {

/// The phases of the game. Each phase has exactly one phase that may follow
/// it; the cutscene leads back to the menu, every other step leads forward.
#[derive(Clone, Copy, Debug, PartialEq, Eq, Hash, Structural)]
pub enum GameState {
    /// Game initialization.
    Initializing,
    /// Assets are being loaded.
    Loading,
    /// The menu is drawn and waits for the player.
    Menu,
    /// The level is being built.
    LoadingLevel,
    /// The player and the enemies are being placed.
    SpawningEntities,
    /// The physics bodies are coming to rest.
    InitializingPhysics,
    /// The actual game logic runs.
    Playing,
    /// The cutscene plays.
    PlayingCutScene,
}

impl Default for GameState {
    fn default() -> (state: GameState)
        ensures
            state == GameState::Initializing,
    {
        GameState::Initializing
    }
}

impl GameState {
    /// The place of the phase in the order in which a game passes through
    /// the phases.
    pub open spec fn order(self) -> nat {
        match self {
            GameState::Initializing => 0,
            GameState::Loading => 1,
            GameState::Menu => 2,
            GameState::LoadingLevel => 3,
            GameState::SpawningEntities => 4,
            GameState::InitializingPhysics => 5,
            GameState::Playing => 6,
            GameState::PlayingCutScene => 7,
        }
    }

    /// The one phase that may follow this one.
    pub open spec fn spec_next(self) -> GameState {
        match self {
            GameState::Initializing => GameState::Loading,
            GameState::Loading => GameState::Menu,
            GameState::Menu => GameState::LoadingLevel,
            GameState::LoadingLevel => GameState::SpawningEntities,
            GameState::SpawningEntities => GameState::InitializingPhysics,
            GameState::InitializingPhysics => GameState::Playing,
            GameState::Playing => GameState::PlayingCutScene,
            GameState::PlayingCutScene => GameState::Menu,
        }
    }

    /// The phase that follows this one. Every step but the one out of the
    /// cutscene moves one place forward.
    pub fn next(self) -> (following: GameState)
        ensures
            following == self.spec_next(),
            self != GameState::PlayingCutScene ==> following.order() == self.order() + 1,
            self == GameState::PlayingCutScene ==> following == GameState::Menu,
    {
        match self {
            GameState::Initializing => GameState::Loading,
            GameState::Loading => GameState::Menu,
            GameState::Menu => GameState::LoadingLevel,
            GameState::LoadingLevel => GameState::SpawningEntities,
            GameState::SpawningEntities => GameState::InitializingPhysics,
            GameState::InitializingPhysics => GameState::Playing,
            GameState::Playing => GameState::PlayingCutScene,
            GameState::PlayingCutScene => GameState::Menu,
        }
    }

    /// The phase after a request to change phase. The request is granted
    /// when it names the phase that follows the current one; any other
    /// request, or none, leaves the phase as it is.
    pub open spec fn requested(self, wanted: Option<GameState>) -> GameState {
        if wanted == Some(self.spec_next()) {
            self.spec_next()
        } else {
            self
        }
    }

    /// Answers a request to change phase.
    pub fn request(self, wanted: Option<GameState>) -> (granted: GameState)
        ensures
            granted == self.requested(wanted),
    {
        match wanted {
            Some(phase) => {
                if phase == self.next() {
                    phase
                } else {
                    self
                }
            },
            None => self,
        }
    }

    /// Whether the per-frame game logic runs in this phase.
    pub fn is_playing(self) -> (playing: bool)
        ensures
            playing == (self == GameState::Playing),
    {
        self == GameState::Playing
    }
}

/// Nanoseconds between two frames of a sprite animation.
pub const FRAME_INTERVAL: u64 = 125_000_000;

/// The repeating timer of a sprite animation and the number of frames that
/// it cycles through.
#[derive(Clone, Copy, Debug, PartialEq, Eq, Structural)]
pub struct AnimationTimer {
    pub timer: Timer,
    pub frame_count: usize,
}

/// The part of a sprite that the game logic decides: which frame of the
/// sheet is shown, and whether it is mirrored.
#[derive(Clone, Copy, Debug, PartialEq, Eq, Structural)]
pub struct Sprite {
    pub index: usize,
    pub flip_x: bool,
}

impl Sprite {
    /// The first frame, not mirrored.
    pub open spec fn initial() -> Sprite {
        Sprite { index: 0, flip_x: false }
    }
}

impl Default for Sprite {
    fn default() -> (sprite: Sprite)
        ensures
            sprite == Sprite::initial(),
    {
        Sprite { index: 0, flip_x: false }
    }
}

/// Whether `entity` occurs in `entities`.
pub fn contains_entity(entities: &Vec<u64>, entity: u64) -> (found: bool)
    ensures
        found == entities@.contains(entity),
{
    let mut i: usize = 0;
    while i < entities.len()
        invariant
            0 <= i <= entities@.len(),
            forall|j: int| 0 <= j < i ==> entities@[j] != entity,
        decreases entities@.len() - i,
    {
        if entities[i] == entity {
            return true;
        }
        i += 1;
    }
    false
}

} // verus!

use vstd::prelude::*;
use crate::entity::{Entity, ids_ok};
use crate::hud::{score_line, high_score_line, health_line};

verus! {

/// Health at the start of a game.
pub const START_HEALTH: u64 = 3;

/// The counters of one game.
#[derive(Clone, Copy, Debug, PartialEq, Eq, Structural)]
pub struct GameState {
    pub score: u64,
    pub high_score: u64,
    pub health: u64,
    /// How many collectibles the player has picked up; the road is refilled
    /// with collectibles up to this number.
    pub collected: u64,
    /// Set once health reaches zero; a lost game no longer changes.
    pub lost: bool,
}

impl GameState {
    /// The counters of a fresh game.
    pub open spec fn new_spec() -> GameState {
        GameState { score: 0, high_score: 0, health: START_HEALTH, collected: 0, lost: false }
    }

    /// The high score is never below the score.
    pub open spec fn wf(&self) -> bool {
        self.score <= self.high_score
    }

    /// A fresh game: no points, full health.
    pub fn new() -> (r: GameState)
        ensures
            r == GameState::new_spec(),
            r.wf(),
    {
        GameState { score: 0, high_score: 0, health: START_HEALTH, collected: 0, lost: false }
    }
}

/// The scene: the player's car, the scrolling entities and the text labels.
pub struct World {
    pub player_x: i64,
    pub player_y: i64,
    /// The car's tilt, in milliradians.
    pub player_tilt: i64,
    pub entities: Vec<Entity>,
    /// The id that the next entity added will get.
    pub next_id: u64,
    pub score_label: String,
    pub high_score_label: String,
    pub health_label: String,
    pub game_over_shown: bool,
}

impl World {
    /// Entity ids are distinct, and each lies below the next id to give.
    pub open spec fn wf(&self) -> bool {
        ids_ok(self.entities@, self.next_id)
    }

    /// The score and high-score labels show the counters of `s`.
    pub open spec fn score_labels_match(&self, s: GameState) -> bool {
        &&& self.score_label@ == score_line(s.score)
        &&& self.high_score_label@ == high_score_line(s.high_score)
    }

    /// The health label shows the health of `s`.
    pub open spec fn health_label_matches(&self, s: GameState) -> bool {
        self.health_label@ == health_line(s.health)
    }

    /// The three labels show the counters of `s`.
    pub open spec fn labels_match(&self, s: GameState) -> bool {
        self.score_labels_match(s) && self.health_label_matches(s)
    }
}

} // verus!

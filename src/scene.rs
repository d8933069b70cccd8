use vstd::prelude::*;
use crate::entity::{Entity, Kind};
use crate::hud::{score_text, high_score_text, health_text};
use crate::placement::{spawn_ok, random_spots};
use crate::state::{GameState, World, START_HEALTH};

verus! {

/// Number of road markers.
pub const MARKERS: u64 = 10;
/// Number of obstacles, one of each style.
pub const OBSTACLES: u64 = 3;
/// Number of collectibles at the start.
pub const COLLECTIBLES: u64 = 10;
/// Where the car starts, left of the centre.
pub const PLAYER_START_X: i64 = -500_000_000;
/// Where the first road marker stands.
pub const MARKER_START_X: i64 = -600_000_000;
/// The distance between two road markers.
pub const MARKER_GAP: i64 = 150_000_000;

/// The entity at position `i` of the starting scene, where `spots` gives
/// the places of the obstacles and then of the collectibles. Ids start at
/// one; the car is not in this list.
pub open spec fn scene_entity(i: int, spots: Seq<(i64, i64)>) -> Entity {
    if i < MARKERS {
        Entity { id: (i + 1) as u64, kind: Kind::RoadMarker, style: 0, x: (MARKER_START_X + MARKER_GAP * i) as i64, y: 0 }
    } else if i < MARKERS + OBSTACLES {
        let j = i - MARKERS;
        Entity { id: (i + 1) as u64, kind: Kind::Obstacle, style: j as u64, x: spots[j].0, y: spots[j].1 }
    } else {
        let j = i - MARKERS;
        Entity { id: (i + 1) as u64, kind: Kind::Collectible, style: 0, x: spots[j].0, y: spots[j].1 }
    }
}

pub open spec fn scene_entities(spots: Seq<(i64, i64)>) -> Seq<Entity> {
    Seq::new((MARKERS + OBSTACLES + COLLECTIBLES) as nat, |i: int| scene_entity(i, spots))
}

/// The starting scene, with obstacles and then collectibles at `spots`.
pub fn build_scene(spots: &Vec<(i64, i64)>) -> (w: World)
    requires
        spots@.len() == OBSTACLES + COLLECTIBLES,
    ensures
        w.player_x == PLAYER_START_X,
        w.player_y == 0,
        w.player_tilt == 0,
        w.entities@ == scene_entities(spots@),
        w.wf(),
        w.next_id == MARKERS + OBSTACLES + COLLECTIBLES + 1,
        w.labels_match(GameState::new_spec()),
        !w.game_over_shown,
{
    let mut entities: Vec<Entity> = Vec::new();
    let total: u64 = MARKERS + OBSTACLES + COLLECTIBLES;
    let mut i: u64 = 0;
    while i < total
        invariant
            0 <= i <= total,
            total == MARKERS + OBSTACLES + COLLECTIBLES,
            spots@.len() == OBSTACLES + COLLECTIBLES,
            entities@ =~= scene_entities(spots@).subrange(0, i as int),
        decreases total - i,
    {
        let e = if i < MARKERS {
            Entity { id: i + 1, kind: Kind::RoadMarker, style: 0, x: MARKER_START_X + MARKER_GAP * (i as i64), y: 0 }
        } else if i < MARKERS + OBSTACLES {
            let j = (i - MARKERS) as usize;
            Entity { id: i + 1, kind: Kind::Obstacle, style: i - MARKERS, x: spots[j].0, y: spots[j].1 }
        } else {
            let j = (i - MARKERS) as usize;
            Entity { id: i + 1, kind: Kind::Collectible, style: 0, x: spots[j].0, y: spots[j].1 }
        };
        entities.push(e);
        i = i + 1;
    }
    World {
        player_x: PLAYER_START_X,
        player_y: 0,
        player_tilt: 0,
        entities,
        next_id: total + 1,
        score_label: score_text(0),
        high_score_label: high_score_text(0),
        health_label: health_text(START_HEALTH),
        game_over_shown: false,
    }
}

/// A fresh game and its starting scene, with obstacles and collectibles at
/// random spots of the entry band.
pub fn new_game() -> (r: (GameState, World))
    ensures
        r.0 == GameState::new_spec(),
        r.1.labels_match(r.0),
        r.1.wf(),
        r.1.player_x == PLAYER_START_X,
        r.1.player_y == 0,
        r.1.player_tilt == 0,
        r.1.next_id == MARKERS + OBSTACLES + COLLECTIBLES + 1,
        !r.1.game_over_shown,
        exists|spots: Seq<(i64, i64)>| {
            &&& spots.len() == OBSTACLES + COLLECTIBLES
            &&& forall|i: int| 0 <= i < spots.len() ==> spawn_ok(#[trigger] spots[i])
            &&& r.1.entities@ == scene_entities(spots)
        },
{
    let spots = random_spots((OBSTACLES + COLLECTIBLES) as usize);
    let w = build_scene(&spots);
    (GameState::new(), w)
}

} // verus!

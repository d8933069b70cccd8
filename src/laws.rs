//! Properties of a frame as a whole, proved from the definitions that the
//! frame functions are specified by.
use vstd::prelude::*;
use crate::entity::{Entity, Kind, of_kind};
use crate::frame::{
    CollisionEvent, FrameInput, scrolled, shifted, coord_ok, WRAP_AT, WRAP_BY, MAX_FRAME_US,
    state_after_events, after_edge_check, off_road, moved_y,
    frame_state, frame_entities, frame_mid_state, wants_collectible, new_collectible,
};
use crate::state::{GameState, World};

verus! {

proof fn lemma_events_monotone(s: GameState, evs: Seq<CollisionEvent>)
    requires
        s.wf(),
    ensures
        state_after_events(s, evs).wf(),
        state_after_events(s, evs).health <= s.health,
        s.health == 0 ==> state_after_events(s, evs).health == 0,
        state_after_events(s, evs).score >= s.score,
        state_after_events(s, evs).high_score == (if state_after_events(s, evs).score > s.high_score {
            state_after_events(s, evs).score
        } else {
            s.high_score
        }),
    decreases evs.len(),
{
    if evs.len() > 0 {
        lemma_events_monotone(s, evs.drop_last());
    }
}

/// A car that leaves the road in a frame leaves that frame with no health,
/// whatever its health was.
pub proof fn off_road_empties_health(s: GameState, w: World, input: FrameInput)
    requires
        s.wf(),
        !s.lost,
        off_road(moved_y(w, input)),
    ensures
        frame_state(s, w, input).health == 0,
        frame_state(s, w, input).lost,
{
    lemma_events_monotone(after_edge_check(s, moved_y(w, input)), input.events@);
}

/// Health never rises in a frame; being unsigned, it never falls below zero.
pub proof fn health_never_rises(s: GameState, w: World, input: FrameInput)
    requires
        s.wf(),
    ensures
        frame_state(s, w, input).health <= s.health,
{
    if !s.lost {
        lemma_events_monotone(after_edge_check(s, moved_y(w, input)), input.events@);
    }
}

/// The score never falls in a frame, and the high score afterwards is the
/// larger of the high score before and the score after, so it is the
/// largest score seen.
pub proof fn score_rises_high_score_follows(s: GameState, w: World, input: FrameInput)
    requires
        s.wf(),
    ensures
        frame_state(s, w, input).score >= s.score,
        frame_state(s, w, input).high_score == (if frame_state(s, w, input).score > s.high_score {
            frame_state(s, w, input).score
        } else {
            s.high_score
        }),
        frame_state(s, w, input).wf(),
{
    if !s.lost {
        lemma_events_monotone(after_edge_check(s, moved_y(w, input)), input.events@);
    }
}

/// A lost game is left as it is by a frame, whatever the input and spots.
pub proof fn lost_game_is_frozen(s: GameState, w: World, input: FrameInput, spots: Seq<(i64, i64)>)
    requires
        s.lost,
    ensures
        frame_state(s, w, input) == s,
        frame_entities(s, w, input, spots) == w.entities@,
{
}

/// A frame adds a collectible exactly when the road holds fewer than the
/// player has picked up, one at most, so the number on the road never
/// passes the number picked up through a refill.
pub proof fn refill_adds_at_most_one(s: GameState, w: World, input: FrameInput, spots: Seq<(i64, i64)>)
    requires
        !s.lost,
    ensures
        ({
            let mid = crate::frame::frame_mid_entities(w, input, spots);
            let live = of_kind(mid, Kind::Collectible).len();
            let after = of_kind(frame_entities(s, w, input, spots), Kind::Collectible).len();
            &&& wants_collectible(frame_mid_state(s, w, input), mid) ==> after == live + 1
                && after <= frame_mid_state(s, w, input).collected
            &&& !wants_collectible(frame_mid_state(s, w, input), mid) ==> after == live
        }),
{
    let mid = crate::frame::frame_mid_entities(w, input, spots);
    let c = new_collectible(w.next_id, spots.last());
    assert(mid.push(c).drop_last() =~= mid);
    reveal_with_fuel(Seq::filter, 1);
}

/// A road marker that scrolls past the left line jumps right by the fixed
/// wrap distance from where it got to, keeping its height; it is not put
/// back at a fixed place.
pub proof fn road_marker_wraps_by_fixed_distance(e: Entity, dt: u64, spot: (i64, i64))
    requires
        e.kind == Kind::RoadMarker,
        coord_ok(e.x),
        dt <= MAX_FRAME_US,
        shifted(e.x, dt) < WRAP_AT,
    ensures
        scrolled(e, dt, spot).x == shifted(e.x, dt) + WRAP_BY,
        scrolled(e, dt, spot).y == e.y,
        scrolled(e, dt, spot).id == e.id,
{
}

} // verus!

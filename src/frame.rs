use vstd::prelude::*;
use crate::entity::{Entity, Kind, without, of_kind, remove_id, count_kind, ids_ok, lemma_without_keeps_ids};
use crate::placement::{spawn_ok, random_spots};
use crate::state::{GameState, World};
use crate::hud::{score_line, high_score_line, health_line, score_text, high_score_text, health_text};

verus! {

/// Vertical speed of the car, in millionths of a unit per microsecond.
pub const PLAYER_SPEED: i64 = 400;
/// Speed at which the road scrolls left, in the same unit.
pub const ROAD_SPEED: i64 = 800;
/// Tilt of the car while it moves, in milliradians.
pub const TILT: i64 = 150;
/// The car stays on the road while its height lies in `-EDGE..=EDGE`.
pub const EDGE: i64 = 360_000_000;
/// A road marker left of this line wraps around to the right.
pub const WRAP_AT: i64 = -675_000_000;
/// How far a road marker jumps when it wraps.
pub const WRAP_BY: i64 = 1_500_000_000;
/// An obstacle or collectible left of this line re-enters the road.
pub const RECYCLE_AT: i64 = -800_000_000;
/// The longest time step that a frame accepts, in microseconds.
pub const MAX_FRAME_US: u64 = 1_000_000_000;
/// Coordinates that a frame accepts lie within this distance of the origin.
pub const COORD_LIMIT: i64 = 1_000_000_000_000_000_000;

pub open spec fn coord_ok(v: i64) -> bool {
    -COORD_LIMIT <= v <= COORD_LIMIT
}

/// The input of one frame.
pub struct FrameInput {
    /// Time since the previous frame, in microseconds.
    pub dt_us: u64,
    /// An "up" key is held.
    pub up: bool,
    /// A "down" key is held.
    pub down: bool,
    /// The collisions reported since the previous frame.
    pub events: Vec<CollisionEvent>,
}

/// One member of a colliding pair.
#[derive(Clone, Copy, Debug, PartialEq, Eq, Structural)]
pub struct Contact {
    pub id: u64,
    pub kind: Kind,
}

/// A collision report: an unordered pair, and whether the contact begins
/// (`true`) or ends.
#[derive(Clone, Copy, Debug, PartialEq, Eq, Structural)]
pub struct CollisionEvent {
    pub first: Contact,
    pub second: Contact,
    pub begins: bool,
}

/// What a collision between two kinds does.
#[derive(Clone, Copy, Debug, PartialEq, Eq, Structural)]
pub enum Encounter {
    /// The car picks up a collectible.
    Pickup,
    /// The car hits something that is not a collectible.
    Crash,
    /// A collectible hits something other than the car.
    Absorb,
    /// Nothing happens.
    Pass,
}

// ---------------------------------------------------------------- movement

/// The vertical direction that the keys ask for: up adds one, down takes
/// one away, so both keys together cancel.
pub open spec fn direction_of(up: bool, down: bool) -> int {
    (if up { 1int } else { 0int }) - (if down { 1int } else { 0int })
}

pub fn direction(up: bool, down: bool) -> (r: i64)
    ensures
        r == direction_of(up, down),
{
    let mut d: i64 = 0;
    if up {
        d = d + 1;
    }
    if down {
        d = d - 1;
    }
    d
}

/// Moves the car by `dir * PLAYER_SPEED * dt` and tilts it by `dir * TILT`.
pub fn move_player(world: &mut World, dir: i64, dt: u64)
    requires
        -1 <= dir <= 1,
        dt <= MAX_FRAME_US,
        coord_ok(old(world).player_y),
    ensures
        final(world).player_y == old(world).player_y + dir * PLAYER_SPEED * dt,
        final(world).player_tilt == dir * TILT,
        final(world).player_x == old(world).player_x,
        final(world).entities@ == old(world).entities@,
        final(world).next_id == old(world).next_id,
        final(world).score_label == old(world).score_label,
        final(world).high_score_label == old(world).high_score_label,
        final(world).health_label == old(world).health_label,
        final(world).game_over_shown == old(world).game_over_shown,
{
    let step: i64 = dt as i64 * PLAYER_SPEED;
    assert(dir * PLAYER_SPEED * dt == dir * step) by (nonlinear_arith)
        requires step == dt * PLAYER_SPEED;
    assert(dir == 1 ==> dir * step == step);
    assert(dir == -1 ==> dir * step == -step) by (nonlinear_arith);
    assert(dir == 0 ==> dir * step == 0);
    if dir > 0 {
        world.player_y = world.player_y + step;
    } else if dir < 0 {
        world.player_y = world.player_y - step;
    }
    world.player_tilt = dir * TILT;
}

pub open spec fn off_road(y: int) -> bool {
    y < -EDGE || y > EDGE
}

/// The counters after the edge check: a car off the road loses all health.
pub open spec fn after_edge_check(s: GameState, y: int) -> GameState {
    if off_road(y) {
        GameState { health: 0, ..s }
    } else {
        s
    }
}

pub fn check_edges(state: &mut GameState, y: i64)
    ensures
        *final(state) == after_edge_check(*old(state), y as int),
{
    if y < -EDGE || y > EDGE {
        state.health = 0;
    }
}

// --------------------------------------------------------------- scrolling

pub open spec fn shifted(x: i64, dt: u64) -> int {
    x - ROAD_SPEED * dt
}

/// Where a road marker that was moved to `x` ends up: past the left line it
/// jumps right by `WRAP_BY`, keeping the spacing of the markers.
pub open spec fn wrapped(x: int) -> int {
    if x < WRAP_AT { x + WRAP_BY } else { x }
}

/// An obstacle or collectible that has scrolled off to the left.
pub open spec fn recycles(e: Entity, dt: u64) -> bool {
    (e.kind == Kind::Obstacle || e.kind == Kind::Collectible) && shifted(e.x, dt) < RECYCLE_AT
}

/// An entity after one frame of scrolling, with `spot` as its new place if
/// it re-enters the road.
pub open spec fn scrolled(e: Entity, dt: u64, spot: (i64, i64)) -> Entity {
    match e.kind {
        Kind::RoadMarker => Entity { x: wrapped(shifted(e.x, dt)) as i64, ..e },
        Kind::Obstacle | Kind::Collectible => {
            if recycles(e, dt) {
                Entity { x: spot.0, y: spot.1, ..e }
            } else {
                Entity { x: shifted(e.x, dt) as i64, ..e }
            }
        },
        Kind::Player => e,
    }
}

/// Every entity of `s` scrolled, the one at `i` with `spots[i]` as its spot.
pub open spec fn scrolled_all(s: Seq<Entity>, dt: u64, spots: Seq<(i64, i64)>) -> Seq<Entity> {
    Seq::new(s.len(), |i: int| scrolled(s[i], dt, spots[i]))
}

pub fn scroll_one(e: Entity, dt: u64, spot: (i64, i64)) -> (r: Entity)
    requires
        coord_ok(e.x),
        dt <= MAX_FRAME_US,
    ensures
        r == scrolled(e, dt, spot),
{
    match e.kind {
        Kind::RoadMarker => {
            let mut x = e.x - ROAD_SPEED * dt as i64;
            if x < WRAP_AT {
                x = x + WRAP_BY;
            }
            Entity { x, ..e }
        },
        Kind::Obstacle | Kind::Collectible => {
            let x = e.x - ROAD_SPEED * dt as i64;
            if x < RECYCLE_AT {
                Entity { x: spot.0, y: spot.1, ..e }
            } else {
                Entity { x, ..e }
            }
        },
        Kind::Player => e,
    }
}

pub open spec fn all_coords_ok(s: Seq<Entity>) -> bool {
    forall|i: int| 0 <= i < s.len() ==> coord_ok(#[trigger] s[i].x)
}

/// Scrolls every entity, the one at `i` re-entering at `spots[i]` if it
/// has to.
pub fn scroll_all(v: &mut Vec<Entity>, dt: u64, spots: &Vec<(i64, i64)>)
    requires
        all_coords_ok(old(v)@),
        dt <= MAX_FRAME_US,
        spots@.len() >= old(v)@.len(),
    ensures
        final(v)@ == scrolled_all(old(v)@, dt, spots@),
{
    let ghost s = old(v)@;
    let mut out: Vec<Entity> = Vec::new();
    let mut i: usize = 0;
    while i < v.len()
        invariant
            v@ == s,
            all_coords_ok(s),
            dt <= MAX_FRAME_US,
            spots@.len() >= s.len(),
            0 <= i <= s.len(),
            out@ =~= scrolled_all(s, dt, spots@).subrange(0, i as int),
        decreases s.len() - i,
    {
        let e = scroll_one(v[i], dt, spots[i]);
        out.push(e);
        i = i + 1;
    }
    *v = out;
}

// -------------------------------------------------------------- collisions

/// The effect of a collision, looked up by the two kinds in either order.
/// A pickup outranks a crash, and a crash outranks an absorb.
pub open spec fn encounter_of(a: Kind, b: Kind) -> Encounter {
    if (a == Kind::Player && b == Kind::Collectible) || (a == Kind::Collectible && b == Kind::Player) {
        Encounter::Pickup
    } else if a == Kind::Player || b == Kind::Player {
        Encounter::Crash
    } else if a == Kind::Collectible || b == Kind::Collectible {
        Encounter::Absorb
    } else {
        Encounter::Pass
    }
}

pub fn encounter(a: Kind, b: Kind) -> (r: Encounter)
    ensures
        r == encounter_of(a, b),
{
    match (a, b) {
        (Kind::Player, Kind::Collectible) | (Kind::Collectible, Kind::Player) => Encounter::Pickup,
        (Kind::Player, _) | (_, Kind::Player) => Encounter::Crash,
        (Kind::Collectible, _) | (_, Kind::Collectible) => Encounter::Absorb,
        _ => Encounter::Pass,
    }
}

/// Whether a member of kind `k` leaves the scene in an encounter: the
/// collectible in a pickup, what the car hit in a crash, what a collectible
/// hit in an absorb.
pub open spec fn leaves(enc: Encounter, k: Kind) -> bool {
    match enc {
        Encounter::Pickup => k == Kind::Collectible,
        Encounter::Crash => k != Kind::Player,
        Encounter::Absorb => k != Kind::Collectible,
        Encounter::Pass => false,
    }
}

pub fn leaves_scene(enc: Encounter, k: Kind) -> (r: bool)
    ensures
        r == leaves(enc, k),
{
    match enc {
        Encounter::Pickup => k == Kind::Collectible,
        Encounter::Crash => k != Kind::Player,
        Encounter::Absorb => k != Kind::Collectible,
        Encounter::Pass => false,
    }
}

/// One more point, never past the largest counter; the high score follows.
pub open spec fn scored(s: GameState) -> GameState {
    let score = if s.score < u64::MAX { (s.score + 1) as u64 } else { s.score };
    GameState {
        score,
        high_score: if score > s.high_score { score } else { s.high_score },
        ..s
    }
}

/// The counters after one collision report.
pub open spec fn state_after_event(s: GameState, ev: CollisionEvent) -> GameState {
    if !ev.begins {
        s
    } else {
        match encounter_of(ev.first.kind, ev.second.kind) {
            Encounter::Pickup => {
                let t = scored(s);
                GameState {
                    collected: if s.collected < u64::MAX { (s.collected + 1) as u64 } else { s.collected },
                    ..t
                }
            },
            Encounter::Crash => GameState {
                health: if s.health > 0 { (s.health - 1) as u64 } else { 0 },
                ..s
            },
            Encounter::Absorb => scored(s),
            Encounter::Pass => s,
        }
    }
}

/// The entities after one collision report: each member that leaves is
/// removed by its id; an id already gone is no error.
pub open spec fn entities_after_event(es: Seq<Entity>, ev: CollisionEvent) -> Seq<Entity> {
    if !ev.begins {
        es
    } else {
        let enc = encounter_of(ev.first.kind, ev.second.kind);
        let es1 = if leaves(enc, ev.first.kind) { without(es, ev.first.id) } else { es };
        if leaves(enc, ev.second.kind) { without(es1, ev.second.id) } else { es1 }
    }
}

/// The counters after a batch of collision reports, in order.
pub open spec fn state_after_events(s: GameState, evs: Seq<CollisionEvent>) -> GameState
    decreases evs.len(),
{
    if evs.len() == 0 {
        s
    } else {
        state_after_event(state_after_events(s, evs.drop_last()), evs.last())
    }
}

/// The entities after a batch of collision reports, in order.
pub open spec fn entities_after_events(es: Seq<Entity>, evs: Seq<CollisionEvent>) -> Seq<Entity>
    decreases evs.len(),
{
    if evs.len() == 0 {
        es
    } else {
        entities_after_event(entities_after_events(es, evs.drop_last()), evs.last())
    }
}

/// Whether an encounter gives a point.
pub open spec fn scores(enc: Encounter) -> bool {
    enc == Encounter::Pickup || enc == Encounter::Absorb
}

proof fn lemma_events_keep_lost(s: GameState, evs: Seq<CollisionEvent>)
    ensures
        state_after_events(s, evs).lost == s.lost,
    decreases evs.len(),
{
    if evs.len() > 0 {
        lemma_events_keep_lost(s, evs.drop_last());
    }
}

/// Applies one collision report to the counters and the scene. A label is
/// rewritten when its counter is touched: the score label on a point, the
/// high-score label when the high score rises, the health label on a crash.
pub fn resolve_event(state: &mut GameState, world: &mut World, ev: CollisionEvent)
    requires
        old(state).wf(),
    ensures
        *final(state) == state_after_event(*old(state), ev),
        final(state).wf(),
        final(world).entities@ == entities_after_event(old(world).entities@, ev),
        final(world).score_label@ == (if ev.begins && scores(encounter_of(ev.first.kind, ev.second.kind)) {
            score_line(final(state).score)
        } else {
            old(world).score_label@
        }),
        final(world).high_score_label@ == (if final(state).high_score != old(state).high_score {
            high_score_line(final(state).high_score)
        } else {
            old(world).high_score_label@
        }),
        final(world).health_label@ == (if ev.begins && encounter_of(ev.first.kind, ev.second.kind) == Encounter::Crash {
            health_line(final(state).health)
        } else {
            old(world).health_label@
        }),
        final(world).player_x == old(world).player_x,
        final(world).player_y == old(world).player_y,
        final(world).player_tilt == old(world).player_tilt,
        final(world).next_id == old(world).next_id,
        final(world).game_over_shown == old(world).game_over_shown,
{
    if !ev.begins {
        return;
    }
    let enc = encounter(ev.first.kind, ev.second.kind);
    if leaves_scene(enc, ev.first.kind) {
        remove_id(&mut world.entities, ev.first.id);
    }
    if leaves_scene(enc, ev.second.kind) {
        remove_id(&mut world.entities, ev.second.id);
    }
    match enc {
        Encounter::Pickup => {
            add_point(state, world);
            state.collected = state.collected.saturating_add(1);
        },
        Encounter::Crash => {
            state.health = state.health.saturating_sub(1);
            world.health_label = health_text(state.health);
        },
        Encounter::Absorb => {
            add_point(state, world);
        },
        Encounter::Pass => {},
    }
}

fn add_point(state: &mut GameState, world: &mut World)
    requires
        old(state).wf(),
    ensures
        *final(state) == scored(*old(state)),
        final(world).score_label@ == score_line(final(state).score),
        final(world).high_score_label@ == (if final(state).high_score != old(state).high_score {
            high_score_line(final(state).high_score)
        } else {
            old(world).high_score_label@
        }),
        final(world).health_label == old(world).health_label,
        final(world).entities@ == old(world).entities@,
        final(world).player_x == old(world).player_x,
        final(world).player_y == old(world).player_y,
        final(world).player_tilt == old(world).player_tilt,
        final(world).next_id == old(world).next_id,
        final(world).game_over_shown == old(world).game_over_shown,
{
    state.score = state.score.saturating_add(1);
    world.score_label = score_text(state.score);
    if state.score > state.high_score {
        state.high_score = state.score;
        world.high_score_label = high_score_text(state.high_score);
    }
}

/// A report of a contact that begins and gives a point.
pub open spec fn event_scores(ev: CollisionEvent) -> bool {
    ev.begins && scores(encounter_of(ev.first.kind, ev.second.kind))
}

/// A report of a contact that begins and is a crash.
pub open spec fn event_crashes(ev: CollisionEvent) -> bool {
    ev.begins && encounter_of(ev.first.kind, ev.second.kind) == Encounter::Crash
}

/// Some report of the batch gives a point.
pub open spec fn any_scoring(evs: Seq<CollisionEvent>) -> bool
    decreases evs.len(),
{
    evs.len() > 0 && (any_scoring(evs.drop_last()) || event_scores(evs.last()))
}

/// Some report of the batch is a crash.
pub open spec fn any_crash(evs: Seq<CollisionEvent>) -> bool
    decreases evs.len(),
{
    evs.len() > 0 && (any_crash(evs.drop_last()) || event_crashes(evs.last()))
}

/// The score label after a batch that ends with counters `s`: rewritten if
/// some report gave a point, else as it was.
pub open spec fn score_label_after(label: Seq<char>, evs: Seq<CollisionEvent>, s: GameState) -> Seq<char> {
    if any_scoring(evs) { score_line(s.score) } else { label }
}

/// The high-score label once the high score went from `high` to that of
/// `s`: rewritten if it changed, else as it was.
pub open spec fn high_score_label_after(label: Seq<char>, high: u64, s: GameState) -> Seq<char> {
    if s.high_score != high { high_score_line(s.high_score) } else { label }
}

/// The health label after a batch that ends with counters `s`: rewritten if
/// some report was a crash, else as it was.
pub open spec fn health_label_after(label: Seq<char>, evs: Seq<CollisionEvent>, s: GameState) -> Seq<char> {
    if any_crash(evs) { health_line(s.health) } else { label }
}

proof fn lemma_events_keep_ids(es: Seq<Entity>, evs: Seq<CollisionEvent>, next: u64)
    requires
        ids_ok(es, next),
    ensures
        ids_ok(entities_after_events(es, evs), next),
    decreases evs.len(),
{
    if evs.len() > 0 {
        lemma_events_keep_ids(es, evs.drop_last(), next);
        let e0 = entities_after_events(es, evs.drop_last());
        let ev = evs.last();
        lemma_without_keeps_ids(e0, ev.first.id, next);
        lemma_without_keeps_ids(e0, ev.second.id, next);
        lemma_without_keeps_ids(without(e0, ev.first.id), ev.second.id, next);
    }
}

proof fn lemma_scroll_keeps_ids(es: Seq<Entity>, dt: u64, spots: Seq<(i64, i64)>, next: u64)
    requires
        ids_ok(es, next),
    ensures
        ids_ok(scrolled_all(es, dt, spots), next),
{
    let r = scrolled_all(es, dt, spots);
    assert forall|i: int| 0 <= i < r.len() implies #[trigger] r[i].id == es[i].id by {}
}

/// Applies a batch of collision reports in order. After the batch, a label
/// whose counter was touched shows that counter's final value.
pub fn resolve_events(state: &mut GameState, world: &mut World, evs: &Vec<CollisionEvent>)
    requires
        old(state).wf(),
    ensures
        *final(state) == state_after_events(*old(state), evs@),
        final(state).wf(),
        final(world).entities@ == entities_after_events(old(world).entities@, evs@),
        final(world).score_label@ == score_label_after(old(world).score_label@, evs@, *final(state)),
        final(world).high_score_label@ == high_score_label_after(
            old(world).high_score_label@,
            old(state).high_score,
            *final(state),
        ),
        final(world).health_label@ == health_label_after(old(world).health_label@, evs@, *final(state)),
        final(world).player_x == old(world).player_x,
        final(world).player_y == old(world).player_y,
        final(world).player_tilt == old(world).player_tilt,
        final(world).next_id == old(world).next_id,
        final(world).game_over_shown == old(world).game_over_shown,
{
    let ghost s0 = *old(state);
    let ghost w0 = old(world).entities@;
    let ghost sl0 = old(world).score_label@;
    let ghost hl0 = old(world).high_score_label@;
    let ghost ml0 = old(world).health_label@;
    let ghost x0 = old(world).player_x;
    let ghost y0 = old(world).player_y;
    let ghost t0 = old(world).player_tilt;
    let ghost n0 = old(world).next_id;
    let ghost g0 = old(world).game_over_shown;
    let mut i: usize = 0;
    while i < evs.len()
        invariant
            0 <= i <= evs@.len(),
            state.wf(),
            state.high_score >= s0.high_score,
            *state == state_after_events(s0, evs@.subrange(0, i as int)),
            world.entities@ == entities_after_events(w0, evs@.subrange(0, i as int)),
            world.score_label@ == score_label_after(sl0, evs@.subrange(0, i as int), *state),
            world.high_score_label@ == high_score_label_after(hl0, s0.high_score, *state),
            world.health_label@ == health_label_after(ml0, evs@.subrange(0, i as int), *state),
            world.player_x == x0,
            world.player_y == y0,
            world.player_tilt == t0,
            world.next_id == n0,
            world.game_over_shown == g0,
        decreases evs@.len() - i,
    {
        let ev = evs[i];
        proof {
            let t = evs@.subrange(0, i + 1);
            assert(t.drop_last() =~= evs@.subrange(0, i as int));
            assert(t.last() == ev);
        }
        resolve_event(state, world, ev);
        i = i + 1;
    }
    proof {
        assert(evs@.subrange(0, evs@.len() as int) =~= evs@);
    }
}

// ------------------------------------------------------------ refilling

/// The road holds fewer collectibles than the player has picked up.
pub open spec fn wants_collectible(s: GameState, es: Seq<Entity>) -> bool {
    s.collected > 0 && of_kind(es, Kind::Collectible).len() < s.collected
}

/// A collectible entering the road at `spot`.
pub open spec fn new_collectible(id: u64, spot: (i64, i64)) -> Entity {
    Entity { id, kind: Kind::Collectible, style: 0, x: spot.0, y: spot.1 }
}

/// Adds one collectible at `spot` when the road holds fewer than the
/// player has picked up; at most one per call.
pub fn refill(state: &GameState, world: &mut World, spot: (i64, i64))
    requires
        old(world).next_id < u64::MAX,
    ensures
        old(world).wf() ==> final(world).wf(),
        wants_collectible(*state, old(world).entities@) ==> {
            &&& final(world).entities@ == old(world).entities@.push(new_collectible(old(world).next_id, spot))
            &&& final(world).next_id == old(world).next_id + 1
        },
        !wants_collectible(*state, old(world).entities@) ==> {
            &&& final(world).entities@ == old(world).entities@
            &&& final(world).next_id == old(world).next_id
        },
        final(world).player_x == old(world).player_x,
        final(world).player_y == old(world).player_y,
        final(world).player_tilt == old(world).player_tilt,
        final(world).score_label == old(world).score_label,
        final(world).high_score_label == old(world).high_score_label,
        final(world).health_label == old(world).health_label,
        final(world).game_over_shown == old(world).game_over_shown,
{
    if state.collected > 0 {
        let live = count_kind(&world.entities, Kind::Collectible);
        if (live as u64) < state.collected {
            let e = Entity { id: world.next_id, kind: Kind::Collectible, style: 0, x: spot.0, y: spot.1 };
            let ghost before = world.entities@;
            world.entities.push(e);
            proof {
                let after = world.entities@;
                assert(after == before.push(e));
                assert forall|i: int| 0 <= i < before.len() implies #[trigger] after[i] == before[i] by {}
            }
            world.next_id = world.next_id + 1;
        }
    }
}

// ------------------------------------------------------------------ losing

/// The counters after the loss check: no health left ends the game.
pub open spec fn after_loss_check(s: GameState) -> GameState {
    if s.health == 0 {
        GameState { lost: true, ..s }
    } else {
        s
    }
}

/// Ends the game when no health is left, and shows the game-over label.
/// Returns whether the game ended.
pub fn check_loss(state: &mut GameState, world: &mut World) -> (ended: bool)
    ensures
        *final(state) == after_loss_check(*old(state)),
        ended == (old(state).health == 0),
        final(world).game_over_shown == (old(world).game_over_shown || ended),
        final(world).player_x == old(world).player_x,
        final(world).player_y == old(world).player_y,
        final(world).player_tilt == old(world).player_tilt,
        final(world).entities@ == old(world).entities@,
        final(world).next_id == old(world).next_id,
        final(world).score_label == old(world).score_label,
        final(world).high_score_label == old(world).high_score_label,
        final(world).health_label == old(world).health_label,
{
    if state.health == 0 {
        state.lost = true;
        world.game_over_shown = true;
        true
    } else {
        false
    }
}

// ------------------------------------------------------------- the frame

/// What a frame needs of its inputs: consistent counters, and coordinates
/// and a time step small enough that no position overflows.
pub open spec fn frame_ready(s: GameState, w: World, input: FrameInput) -> bool {
    &&& s.wf()
    &&& w.wf()
    &&& coord_ok(w.player_y)
    &&& all_coords_ok(w.entities@)
    &&& input.dt_us <= MAX_FRAME_US
    &&& w.next_id < u64::MAX
}

/// The height of the car after a frame that is played.
pub open spec fn moved_y(w: World, input: FrameInput) -> int {
    w.player_y + direction_of(input.up, input.down) * PLAYER_SPEED * input.dt_us
}

/// The counters after the collisions of a frame that is played.
pub open spec fn frame_mid_state(s: GameState, w: World, input: FrameInput) -> GameState {
    state_after_events(after_edge_check(s, moved_y(w, input)), input.events@)
}

/// The entities after the scrolling and collisions of a frame that is
/// played, before any refill.
pub open spec fn frame_mid_entities(w: World, input: FrameInput, spots: Seq<(i64, i64)>) -> Seq<Entity> {
    entities_after_events(scrolled_all(w.entities@, input.dt_us, spots), input.events@)
}

/// The counters after a frame. A lost game does not change.
pub open spec fn frame_state(s: GameState, w: World, input: FrameInput) -> GameState {
    if s.lost {
        s
    } else {
        after_loss_check(frame_mid_state(s, w, input))
    }
}

/// The entities after a frame, with `spots[i]` as the re-entry spot of the
/// entity at `i` and the last spot for a refill.
pub open spec fn frame_entities(s: GameState, w: World, input: FrameInput, spots: Seq<(i64, i64)>) -> Seq<Entity> {
    if s.lost {
        w.entities@
    } else {
        let mid = frame_mid_entities(w, input, spots);
        if wants_collectible(frame_mid_state(s, w, input), mid) {
            mid.push(new_collectible(w.next_id, spots.last()))
        } else {
            mid
        }
    }
}

/// The id that the next entity will get after a frame: one more when the
/// frame refilled a collectible.
pub open spec fn frame_next_id(s: GameState, w: World, input: FrameInput, spots: Seq<(i64, i64)>) -> int {
    if !s.lost && wants_collectible(frame_mid_state(s, w, input), frame_mid_entities(w, input, spots)) {
        w.next_id + 1
    } else {
        w.next_id as int
    }
}

/// Plays one frame with the re-entry spots given: moves the car, checks
/// the road's edges, scrolls, resolves the collisions, refills collectibles
/// and checks for the end of the game. Returns whether the game ended in
/// this frame.
pub fn advance(state: &mut GameState, world: &mut World, input: &FrameInput, spots: &Vec<(i64, i64)>) -> (ended: bool)
    requires
        frame_ready(*old(state), *old(world), *input),
        spots@.len() == old(world).entities@.len() + 1,
    ensures
        *final(state) == frame_state(*old(state), *old(world), *input),
        final(state).wf(),
        final(world).wf(),
        final(world).entities@ == frame_entities(*old(state), *old(world), *input, spots@),
        final(world).next_id == frame_next_id(*old(state), *old(world), *input, spots@),
        old(state).lost ==> *final(world) == *old(world),
        !old(state).lost ==> {
            &&& final(world).player_y == moved_y(*old(world), *input)
            &&& final(world).player_tilt == direction_of(input.up, input.down) * TILT
            &&& final(world).player_x == old(world).player_x
            &&& final(world).game_over_shown == (old(world).game_over_shown || final(state).lost)
            &&& final(world).score_label@ == score_label_after(old(world).score_label@, input.events@, *final(state))
            &&& final(world).high_score_label@ == high_score_label_after(
                old(world).high_score_label@,
                old(state).high_score,
                *final(state),
            )
            &&& final(world).health_label@ == health_label_after(old(world).health_label@, input.events@, *final(state))
        },
        ended == (!old(state).lost && final(state).lost),
{
    if state.lost {
        return false;
    }
    proof {
        lemma_events_keep_lost(after_edge_check(*old(state), moved_y(*old(world), *input)), input.events@);
    }
    let dir = direction(input.up, input.down);
    move_player(world, dir, input.dt_us);
    check_edges(state, world.player_y);
    proof {
        lemma_scroll_keeps_ids(world.entities@, input.dt_us, spots@, world.next_id);
    }
    scroll_all(&mut world.entities, input.dt_us, spots);
    proof {
        lemma_events_keep_ids(world.entities@, input.events@, world.next_id);
    }
    resolve_events(state, world, &input.events);
    let spot = spots[spots.len() - 1];
    refill(state, world, spot);
    check_loss(state, world)
}

/// Plays one frame, drawing a fresh random spot for every entity that
/// re-enters the road and for a refill. Returns whether the game ended in
/// this frame.
pub fn update(state: &mut GameState, world: &mut World, input: &FrameInput) -> (ended: bool)
    requires
        frame_ready(*old(state), *old(world), *input),
        old(world).entities@.len() < usize::MAX,
    ensures
        *final(state) == frame_state(*old(state), *old(world), *input),
        final(state).wf(),
        final(world).wf(),
        exists|spots: Seq<(i64, i64)>| {
            &&& spots.len() == old(world).entities@.len() + 1
            &&& forall|i: int| 0 <= i < spots.len() ==> spawn_ok(#[trigger] spots[i])
            &&& final(world).entities@ == frame_entities(*old(state), *old(world), *input, spots)
            &&& final(world).next_id == frame_next_id(*old(state), *old(world), *input, spots)
        },
        final(world).next_id == old(world).next_id || final(world).next_id == old(world).next_id + 1,
        old(state).lost ==> *final(world) == *old(world),
        !old(state).lost ==> {
            &&& final(world).player_y == moved_y(*old(world), *input)
            &&& final(world).player_tilt == direction_of(input.up, input.down) * TILT
            &&& final(world).player_x == old(world).player_x
            &&& final(world).game_over_shown == (old(world).game_over_shown || final(state).lost)
            &&& final(world).score_label@ == score_label_after(old(world).score_label@, input.events@, *final(state))
            &&& final(world).high_score_label@ == high_score_label_after(
                old(world).high_score_label@,
                old(state).high_score,
                *final(state),
            )
            &&& final(world).health_label@ == health_label_after(old(world).health_label@, input.events@, *final(state))
        },
        ended == (!old(state).lost && final(state).lost),
{
    let spots = random_spots(world.entities.len() + 1);
    advance(state, world, input, &spots)
}

} // verus!

use tzou_game::entity::{count_kind, remove_id, Entity, Kind};
use tzou_game::frame::{
    advance, check_edges, check_loss, direction, encounter, move_player, refill, resolve_event,
    resolve_events, scroll_all, scroll_one, update, CollisionEvent, Contact, Encounter, FrameInput,
};
use tzou_game::hud::{health_text, high_score_text, score_text};
use tzou_game::scene::{build_scene, new_game};
use tzou_game::state::{GameState, World};

fn marker(id: u64, x: i64) -> Entity {
    Entity { id, kind: Kind::RoadMarker, style: 0, x, y: 0 }
}

fn obstacle(id: u64, x: i64, y: i64) -> Entity {
    Entity { id, kind: Kind::Obstacle, style: 0, x, y }
}

fn collectible(id: u64, x: i64, y: i64) -> Entity {
    Entity { id, kind: Kind::Collectible, style: 0, x, y }
}

fn spots(n: usize) -> Vec<(i64, i64)> {
    let mut v = Vec::new();
    for i in 0..n {
        v.push((800_000_000 + 1_000_000 * i as i64, -300_000_000 + 1_000_000 * i as i64));
    }
    v
}

fn scene() -> World {
    build_scene(&spots(13))
}

fn empty_world() -> World {
    let mut w = scene();
    w.entities.clear();
    w
}

fn begin(a: Contact, b: Contact) -> CollisionEvent {
    CollisionEvent { first: a, second: b, begins: true }
}

fn player() -> Contact {
    Contact { id: 0, kind: Kind::Player }
}

fn input(dt_us: u64, up: bool, down: bool, events: Vec<CollisionEvent>) -> FrameInput {
    FrameInput { dt_us, up, down, events }
}

#[test]
fn direction_from_keys() {
    assert_eq!(direction(true, false), 1);
    assert_eq!(direction(false, true), -1);
    assert_eq!(direction(true, true), 0);
    assert_eq!(direction(false, false), 0);
}

#[test]
fn player_moves_by_speed_times_dt() {
    let mut w = scene();
    move_player(&mut w, 1, 100_000);
    assert_eq!(w.player_y, 40_000_000);
    assert_eq!(w.player_tilt, 150);
    move_player(&mut w, -1, 250_000);
    assert_eq!(w.player_y, -60_000_000);
    assert_eq!(w.player_tilt, -150);
    move_player(&mut w, 0, 1_000_000);
    assert_eq!(w.player_y, -60_000_000);
    assert_eq!(w.player_tilt, 0);
    assert_eq!(w.player_x, -500_000_000);
}

#[test]
fn leaving_the_road_empties_health() {
    let mut s = GameState::new();
    check_edges(&mut s, 360_000_000);
    assert_eq!(s.health, 3);
    check_edges(&mut s, -360_000_000);
    assert_eq!(s.health, 3);
    check_edges(&mut s, 360_000_001);
    assert_eq!(s.health, 0);
    let mut s = GameState::new();
    check_edges(&mut s, -360_000_001);
    assert_eq!(s.health, 0);
}

#[test]
fn off_road_frame_ends_the_game() {
    let mut s = GameState::new();
    let mut w = empty_world();
    w.player_y = 350_000_000;
    let ended = advance(&mut s, &mut w, &input(100_000, true, false, vec![]), &spots(1));
    assert!(ended);
    assert_eq!(s.health, 0);
    assert!(s.lost);
    assert!(w.game_over_shown);
    assert_eq!(w.player_y, 390_000_000);
}

#[test]
fn road_marker_wraps_by_1500() {
    let e = scroll_one(marker(1, -600_000_000), 100_000, (900_000_000, 0));
    assert_eq!(e.x, 820_000_000);
    assert_eq!(e.y, 0);
    let e = scroll_one(marker(1, -667_500_000), 15_625, (900_000_000, 0));
    assert_eq!(e.x, 820_000_000);
    let e = scroll_one(marker(1, 0), 100_000, (900_000_000, 0));
    assert_eq!(e.x, -80_000_000);
    let e = scroll_one(marker(1, -595_000_000), 100_000, (900_000_000, 0));
    assert_eq!(e.x, -675_000_000);
}

#[test]
fn obstacles_and_collectibles_recycle_at_spot() {
    let e = scroll_one(obstacle(2, -790_000_000, 5), 100_000, (1_000_000_000, 42));
    assert_eq!((e.x, e.y), (1_000_000_000, 42));
    let e = scroll_one(collectible(3, -700_000_000, 5), 100_000, (1_000_000_000, 42));
    assert_eq!((e.x, e.y), (-780_000_000, 5));
    let e = scroll_one(collectible(3, -730_000_000, 5), 100_000, (1_000_000_000, 42));
    assert_eq!((e.x, e.y), (1_000_000_000, 42));
}

#[test]
fn scroll_all_moves_every_entity() {
    let mut v = vec![marker(1, -600_000_000), obstacle(2, 0, 7), collectible(3, -790_000_000, 9)];
    scroll_all(&mut v, 100_000, &vec![(1, 1), (2, 2), (900_000_000, 100)]);
    assert_eq!(v[0].x, 820_000_000);
    assert_eq!((v[1].x, v[1].y), (-80_000_000, 7));
    assert_eq!((v[2].x, v[2].y), (900_000_000, 100));
}

#[test]
fn encounters_are_symmetric() {
    let kinds = [Kind::Player, Kind::RoadMarker, Kind::Obstacle, Kind::Collectible];
    for a in kinds {
        for b in kinds {
            assert_eq!(encounter(a, b), encounter(b, a));
        }
    }
    assert_eq!(encounter(Kind::Player, Kind::Collectible), Encounter::Pickup);
    assert_eq!(encounter(Kind::Obstacle, Kind::Player), Encounter::Crash);
    assert_eq!(encounter(Kind::Collectible, Kind::Obstacle), Encounter::Absorb);
    assert_eq!(encounter(Kind::Obstacle, Kind::Obstacle), Encounter::Pass);
}

#[test]
fn three_crashes_end_the_game() {
    let mut s = GameState::new();
    let mut w = empty_world();
    w.entities = vec![obstacle(11, 0, 0), obstacle(12, 0, 0), obstacle(13, 0, 0)];
    assert_eq!(s.health, 3);
    for (id, expected, text) in [(11, 2, "Health: 2"), (12, 1, "Health: 1"), (13, 0, "Health: 0")] {
        let ev = begin(player(), Contact { id, kind: Kind::Obstacle });
        let places = spots(w.entities.len() + 1);
        let ended = advance(&mut s, &mut w, &input(0, false, false, vec![ev]), &places);
        assert_eq!(s.health, expected);
        assert_eq!(w.health_label, text);
        assert_eq!(ended, expected == 0);
        assert_eq!(s.lost, expected == 0);
        assert_eq!(w.game_over_shown, expected == 0);
    }
    assert!(w.entities.is_empty());
}

#[test]
fn one_pickup_scores_one() {
    let mut s = GameState::new();
    let mut w = scene();
    assert_eq!((s.score, s.high_score), (0, 0));
    let ev = begin(player(), Contact { id: 14, kind: Kind::Collectible });
    resolve_event(&mut s, &mut w, ev);
    assert_eq!(s.score, 1);
    assert_eq!(s.high_score, 1);
    assert_eq!(s.collected, 1);
    assert_eq!(w.score_label, "Score: 1");
    assert_eq!(w.high_score_label, "High Score: 1");
    assert_eq!(w.entities.len(), 22);
    assert!(w.entities.iter().all(|e| e.id != 14));
}

#[test]
fn collectible_hitting_obstacle_removes_obstacle() {
    let mut s = GameState::new();
    let mut w = empty_world();
    w.entities = vec![obstacle(1, 0, 0), collectible(2, 0, 0)];
    let ev = begin(Contact { id: 2, kind: Kind::Collectible }, Contact { id: 1, kind: Kind::Obstacle });
    resolve_event(&mut s, &mut w, ev);
    assert_eq!(s.score, 1);
    assert_eq!(s.collected, 0);
    assert_eq!(w.entities, vec![collectible(2, 0, 0)]);
    assert_eq!(w.score_label, "Score: 1");
}

#[test]
fn ending_contacts_and_repeated_removals_are_harmless() {
    let mut s = GameState::new();
    let mut w = empty_world();
    w.entities = vec![obstacle(1, 0, 0)];
    let mut ev = begin(player(), Contact { id: 1, kind: Kind::Obstacle });
    ev.begins = false;
    resolve_event(&mut s, &mut w, ev);
    assert_eq!(s, GameState::new());
    assert_eq!(w.entities.len(), 1);
    let ev = begin(player(), Contact { id: 1, kind: Kind::Obstacle });
    resolve_events(&mut s, &mut w, &vec![ev, ev]);
    assert_eq!(s.health, 1);
    assert!(w.entities.is_empty());
    assert_eq!(w.health_label, "Health: 1");
}

#[test]
fn health_saturates_at_zero() {
    let mut s = GameState::new();
    s.health = 0;
    let mut w = empty_world();
    resolve_event(&mut s, &mut w, begin(player(), Contact { id: 9, kind: Kind::Obstacle }));
    assert_eq!(s.health, 0);
}

#[test]
fn score_saturates_at_largest_counter() {
    let mut s = GameState::new();
    s.score = u64::MAX;
    s.high_score = u64::MAX;
    let mut w = empty_world();
    resolve_event(&mut s, &mut w, begin(player(), Contact { id: 9, kind: Kind::Collectible }));
    assert_eq!(s.score, u64::MAX);
    assert_eq!(s.high_score, u64::MAX);
    assert_eq!(s.collected, 1);
}

#[test]
fn high_score_keeps_the_maximum() {
    let mut s = GameState::new();
    s.high_score = 5;
    let mut w = empty_world();
    w.high_score_label = high_score_text(5);
    resolve_event(&mut s, &mut w, begin(player(), Contact { id: 9, kind: Kind::Collectible }));
    assert_eq!((s.score, s.high_score), (1, 5));
    assert_eq!(w.high_score_label, "High Score: 5");
}

#[test]
fn refill_adds_one_collectible_per_frame() {
    let mut s = GameState::new();
    s.collected = 2;
    let mut w = empty_world();
    let next = w.next_id;
    refill(&s, &mut w, (900_000_000, 10));
    assert_eq!(w.entities, vec![collectible(next, 900_000_000, 10)]);
    assert_eq!(w.next_id, next + 1);
    refill(&s, &mut w, (1_000_000_000, 20));
    assert_eq!(count_kind(&w.entities, Kind::Collectible), 2);
    refill(&s, &mut w, (1_100_000_000, 30));
    assert_eq!(count_kind(&w.entities, Kind::Collectible), 2);
    s.collected = 0;
    let mut w = empty_world();
    refill(&s, &mut w, (900_000_000, 10));
    assert!(w.entities.is_empty());
}

#[test]
fn check_loss_only_at_zero_health() {
    let mut s = GameState::new();
    let mut w = empty_world();
    assert!(!check_loss(&mut s, &mut w));
    assert!(!s.lost);
    s.health = 0;
    assert!(check_loss(&mut s, &mut w));
    assert!(s.lost);
    assert!(w.game_over_shown);
}

#[test]
fn lost_game_is_not_changed_by_update() {
    let (mut s, mut w) = new_game();
    s.lost = true;
    s.health = 0;
    let before_state = s;
    let before = w.entities.clone();
    let ev = begin(player(), Contact { id: 14, kind: Kind::Collectible });
    let ended = update(&mut s, &mut w, &input(5_000_000, true, false, vec![ev]));
    assert!(!ended);
    assert_eq!(s, before_state);
    assert_eq!(w.entities, before);
    assert_eq!(w.player_y, 0);
    assert!(!w.game_over_shown);
}

#[test]
fn new_game_lays_out_the_scene() {
    let (s, w) = new_game();
    assert_eq!(s, GameState::new());
    assert_eq!(w.entities.len(), 23);
    assert_eq!(count_kind(&w.entities, Kind::RoadMarker), 10);
    assert_eq!(count_kind(&w.entities, Kind::Obstacle), 3);
    assert_eq!(count_kind(&w.entities, Kind::Collectible), 10);
    for (i, e) in w.entities.iter().enumerate() {
        assert_eq!(e.id, i as u64 + 1);
        match e.kind {
            Kind::RoadMarker => assert_eq!(e.x, -600_000_000 + 150_000_000 * i as i64),
            _ => {
                assert!(e.x >= 800_000_000 && e.x < 1_600_000_000);
                assert!(e.y >= -300_000_000 && e.y < 300_000_000);
            }
        }
    }
    let styles: Vec<u64> = w.entities.iter().filter(|e| e.kind == Kind::Obstacle).map(|e| e.style).collect();
    assert_eq!(styles, vec![0, 1, 2]);
    assert_eq!(w.score_label, "Score: 0");
    assert_eq!(w.high_score_label, "High Score: 0");
    assert_eq!(w.health_label, "Health: 3");
    assert_eq!(w.next_id, 24);
}

#[test]
fn update_recycles_within_entry_band() {
    let mut s = GameState::new();
    let mut w = empty_world();
    w.entities = vec![obstacle(1, -790_000_000, 0), collectible(2, -795_000_000, 0), marker(3, -600_000_000)];
    let ended = update(&mut s, &mut w, &input(100_000, false, true, vec![]));
    assert!(!ended);
    assert_eq!(w.player_y, -40_000_000);
    for e in &w.entities[..2] {
        assert!(e.x >= 800_000_000 && e.x < 1_600_000_000);
        assert!(e.y >= -300_000_000 && e.y < 300_000_000);
    }
    assert_eq!(w.entities[2].x, 820_000_000);
}

#[test]
fn full_frame_pickup_refills() {
    let mut s = GameState::new();
    let mut w = empty_world();
    w.entities = vec![collectible(5, 0, 0)];
    let next = w.next_id;
    let ev = begin(Contact { id: 5, kind: Kind::Collectible }, player());
    let ended = advance(&mut s, &mut w, &input(10_000, false, false, vec![ev]), &vec![(1, 1), (850_000_000, 5)]);
    assert!(!ended);
    assert_eq!(s.score, 1);
    assert_eq!(w.entities, vec![collectible(next, 850_000_000, 5)]);
}

#[test]
fn remove_id_drops_every_match() {
    let mut v = vec![obstacle(1, 0, 0), collectible(2, 0, 0), obstacle(1, 5, 5)];
    remove_id(&mut v, 1);
    assert_eq!(v, vec![collectible(2, 0, 0)]);
    remove_id(&mut v, 7);
    assert_eq!(v.len(), 1);
}

#[test]
fn labels_are_written_in_decimal() {
    assert_eq!(score_text(0), "Score: 0");
    assert_eq!(score_text(1234), "Score: 1234");
    assert_eq!(high_score_text(70), "High Score: 70");
    assert_eq!(health_text(3), "Health: 3");
    assert_eq!(score_text(u64::MAX), "Score: 18446744073709551615");
}

#[test]
fn refill_over_frames_stops_at_collected() {
    let mut s = GameState::new();
    s.collected = 3;
    let mut w = empty_world();
    let mut counts = Vec::new();
    for _ in 0..5 {
        let places = spots(w.entities.len() + 1);
        advance(&mut s, &mut w, &input(1_000, false, false, vec![]), &places);
        counts.push(count_kind(&w.entities, Kind::Collectible));
    }
    assert_eq!(counts, vec![1, 2, 3, 3, 3]);
}

#[test]
fn score_and_high_score_over_frames() {
    let mut s = GameState::new();
    let mut w = scene();
    let mut last = 0;
    for id in 14..18u64 {
        let ev = begin(player(), Contact { id, kind: Kind::Collectible });
        update(&mut s, &mut w, &input(16_000, false, false, vec![ev]));
        assert!(s.score >= last);
        assert_eq!(s.high_score, s.score);
        last = s.score;
    }
    assert_eq!(s.score, 4);
    assert_eq!(w.score_label, "Score: 4");
    assert_eq!(w.high_score_label, "High Score: 4");
}

#[test]
fn crash_while_off_road_shows_zero_health() {
    let mut s = GameState::new();
    let mut w = empty_world();
    w.player_y = 350_000_000;
    w.entities = vec![obstacle(1, 0, 0)];
    let ev = begin(player(), Contact { id: 1, kind: Kind::Obstacle });
    let ended = advance(&mut s, &mut w, &input(100_000, true, false, vec![ev]), &spots(2));
    assert!(ended);
    assert_eq!(s.health, 0);
    assert_eq!(w.health_label, "Health: 0");
    assert_eq!(w.score_label, "Score: 0");
}

#[test]
fn next_id_grows_only_on_refill() {
    let mut s = GameState::new();
    let mut w = empty_world();
    let next = w.next_id;
    advance(&mut s, &mut w, &input(1_000, false, false, vec![]), &spots(1));
    assert_eq!(w.next_id, next);
    s.collected = 1;
    advance(&mut s, &mut w, &input(1_000, false, false, vec![]), &spots(1));
    assert_eq!(w.next_id, next + 1);
    assert_eq!(w.entities[0].id, next);
}

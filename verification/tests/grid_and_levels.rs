use snaky_rhythm::game::{since, turn, KeyState};
use snaky_rhythm::grid::{
    body_contains, body_hit, cell_offset, choose_flower, flower_for_pick, map_layout, on_map,
    same_pos, shift_body, shifted_copy, Pos,
};
use snaky_rhythm::level::level;

#[test]
fn level_zero_settings() {
    let l = level(0);
    assert_eq!(l.position, (0, 4));
    assert_eq!(l.audio_id, 2);
    assert_eq!(l.beats_per_min, 110);
    assert_eq!(l.patterns.len(), 16);
    assert_eq!(l.patterns[0], "x-x-x-x-");
    assert_eq!(l.patterns[3], "x-xxxxx-");
}

#[test]
fn level_one_settings() {
    let l = level(1);
    assert_eq!(l.audio_id, 0);
    assert_eq!(l.beats_per_min, 130);
    assert_eq!(l.patterns[0], "x---x-x-");
    assert_eq!(l.patterns[15], "x-------");
}

#[test]
fn level_two_settings() {
    let l = level(2);
    assert_eq!(l.audio_id, 1);
    assert_eq!(l.beats_per_min, 140);
    assert_eq!(l.patterns[3], "x-xxxxx-");
    assert!(l.patterns.iter().all(|p| p.len() == 8));
}

#[test]
fn layout_of_the_map() {
    let m = map_layout();
    assert_eq!((m.map_x, m.map_y, m.map_w, m.map_h), (260, 50, 720, 480));
    assert_eq!(m.hint_top, 570);
    assert_eq!((m.score_left, m.score_top), (920, 580));
    assert_eq!((m.border_x, m.border_y, m.border_w, m.border_h), (240, 30, 760, 520));
}

#[test]
fn offsets_of_cells() {
    assert_eq!(cell_offset((0, 0)), (0, 0));
    assert_eq!(cell_offset((11, 7)), (660, 420));
}

#[test]
fn cells_on_and_off_the_map() {
    assert!(on_map((0, 0)));
    assert!(on_map((11, 7)));
    assert!(!on_map((12, 0)));
    assert!(!on_map((0, 8)));
    assert!(!on_map((-1, 3)));
    assert!(same_pos((2, 3), (2, 3)));
    assert!(!same_pos((2, 3), (3, 2)));
}

#[test]
fn the_tail_is_no_obstacle() {
    let body: Vec<Pos> = vec![(1, 1), (1, 2), (1, 3)];
    assert!(body_hit(&body, (1, 1)));
    assert!(body_hit(&body, (1, 2)));
    assert!(!body_hit(&body, (1, 3)));
    assert!(body_contains(&body, (1, 3)));
    assert!(!body_contains(&body, (4, 4)));
}

#[test]
fn shifting_the_body_follows_the_head() {
    let mut body: Vec<Pos> = vec![(1, 1), (1, 2), (1, 3)];
    shift_body(&mut body, (2, 1));
    assert_eq!(body, vec![(2, 1), (1, 1), (1, 2)]);
    let mut empty: Vec<Pos> = Vec::new();
    shift_body(&mut empty, (0, 0));
    assert!(empty.is_empty());
    let copy = shifted_copy(&body, (3, 1));
    assert_eq!(copy, vec![(3, 1), (2, 1), (1, 1)]);
    assert_eq!(body, vec![(2, 1), (1, 1), (1, 2)]);
    assert!(shifted_copy(&empty, (0, 0)).is_empty());
}

#[test]
fn flower_for_a_pick() {
    let body: Vec<Pos> = vec![(1, 0), (2, 0)];
    assert_eq!(flower_for_pick((0, 0), &body, 0), Some((3, 0)));
    assert_eq!(flower_for_pick((0, 0), &body, 9), Some((0, 1)));
    assert_eq!(flower_for_pick((0, 0), &body, 92), Some((11, 7)));
    assert_eq!(flower_for_pick((0, 0), &body, 93), None);
}

#[test]
fn random_flower_lands_on_the_free_cell() {
    // only (11,7) is free: the draw must land there every time
    let mut body: Vec<Pos> = Vec::new();
    for k in 1..95i32 {
        body.push((k % 12, k / 12));
    }
    let mut rng = rand::thread_rng();
    for _ in 0..20 {
        assert_eq!(choose_flower(&mut rng, (0, 0), &body), (11, 7));
    }
}

#[test]
fn random_flowers_spread_over_free_cells() {
    let body: Vec<Pos> = vec![(0, 0), (0, 0)];
    let mut rng = rand::thread_rng();
    let mut seen = std::collections::HashSet::new();
    for _ in 0..2000 {
        let f = choose_flower(&mut rng, (0, 0), &body);
        assert!(f != (0, 0) && on_map(f));
        seen.insert(f);
    }
    assert!(seen.len() > 80);
}

#[test]
fn turning() {
    let k = |code| Some(KeyState { key_code: code, is_down: true });
    assert_eq!(turn((1, 0), k(37)), (-1, 0));
    assert_eq!(turn((1, 0), k(38)), (0, -1));
    assert_eq!(turn((0, 1), k(39)), (1, 0));
    assert_eq!(turn((1, 0), k(40)), (0, 1));
    assert_eq!(turn((0, 1), k(32)), (0, 1));
    assert_eq!(turn((0, -1), None), (0, -1));
}

#[test]
fn elapsed_time_never_negative() {
    assert_eq!(since(10, 4), 6);
    assert_eq!(since(4, 10), 0);
}

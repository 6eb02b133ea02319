use snaky_rhythm::game::{FrameInput, Game, KeyState, ScoreTone};
use snaky_rhythm::grid::{free_cells_of, Pos};
use snaky_rhythm::level::level;

const STEP_110: i64 = 545_454_545;
const KEY_TIME_110: u64 = 445_454_545;

fn no_key() -> KeyState {
    KeyState { key_code: 0, is_down: false }
}

fn key(code: i32) -> KeyState {
    KeyState { key_code: code, is_down: true }
}

fn input(time: u64, audio_time: i64, key: KeyState) -> FrameInput {
    FrameInput { time, now: time, audio_time, key }
}

fn fresh() -> Game {
    Game::new(level(0), no_key(), 1_000)
}

fn on_snake(g: &Game, p: Pos) -> bool {
    g.head == p || g.body.contains(&p)
}

/// A game whose next frame is due to step, with no beat passing.
fn ready_to_step(mut g: Game) -> Game {
    g.can_move_time = Some(0);
    g.prev_instant = 0;
    g
}

#[test]
fn new_game_starts_on_level_position() {
    let g = fresh();
    assert_eq!(g.head, (0, 4));
    assert_eq!(g.body, vec![(0, 4), (0, 4)]);
    assert_eq!(g.direction, (1, 0));
    assert_eq!(g.score, 100);
    assert_eq!(g.step, STEP_110);
    assert_eq!(g.key_time, KEY_TIME_110);
    assert_eq!(g.prev_instant, 150_000_000 - 2 * STEP_110);
    assert_eq!(g.beats_offset, -1);
    assert_eq!(g.eye_frame, 0);
    assert_eq!(g.effective_key_time, 1_000);
    assert_eq!(g.audio_id, 2);
    assert!(g.failed_time.is_none());
    assert!(g.can_move_time.is_none());
}

#[test]
fn new_game_flower_is_free_and_on_map() {
    for _ in 0..50 {
        let g = fresh();
        let f = g.flower;
        assert!(0 <= f.0 && f.0 < 12 && 0 <= f.1 && f.1 < 8);
        assert!(!on_snake(&g, f));
    }
}

#[test]
fn first_beat_shows_marks_and_opens_a_step() {
    let mut g = fresh();
    assert!(g.frame_is_defined(input(5_000, 0, no_key())));
    let out = g.frame(input(5_000, 0, no_key()));
    let beat = out.beat.expect("a beat");
    let marks: String = beat.marks.iter().collect();
    assert_eq!(marks, "x-x-x-x-x-x-x-x-");
    assert_eq!(beat.highlight, 0);
    assert_eq!(beat.eye_frame, 1);
    assert_eq!(g.beats_offset, 0);
    assert_eq!(g.prev_instant, 150_000_000 - STEP_110);
    assert_eq!(g.can_move_time, Some(5_000 + KEY_TIME_110));
    assert!(!out.moved);
    assert!(out.score_tone.is_none());
}

#[test]
fn rest_beat_does_not_open_a_step() {
    let mut g = fresh();
    g.beats_offset = 0;
    g.prev_instant = 0;
    let out = g.frame(input(10, STEP_110, no_key()));
    assert_eq!(out.beat.expect("a beat").highlight, 1);
    assert!(g.can_move_time.is_none());
}

#[test]
fn snake_steps_when_its_beat_window_ends() {
    let mut g = fresh();
    g.flower = (11, 7);
    g.frame(input(5_000, 0, no_key()));
    let early = g.frame(input(5_001, 1, no_key()));
    assert!(!early.moved);
    let out = g.frame(input(5_000 + KEY_TIME_110, 2, no_key()));
    assert!(out.moved);
    assert_eq!(g.head, (1, 4));
    assert_eq!(g.body, vec![(0, 4), (0, 4)]);
    assert!(g.can_move_time.is_none());
    let again = g.frame(input(6_000_000_000, 3, no_key()));
    assert!(!again.moved);
}

#[test]
fn arrow_keys_turn_the_snake() {
    let mut g = ready_to_step(fresh());
    g.head = (5, 4);
    g.body = vec![(4, 4), (3, 4)];
    g.flower = (11, 7);
    let out = g.frame(input(10, 0, key(38)));
    assert!(out.moved);
    assert_eq!(g.direction, (0, -1));
    assert_eq!(g.head, (5, 3));
    assert_eq!(g.body, vec![(5, 4), (4, 4)]);
    assert!(g.effective_key.is_none());
}

#[test]
fn other_keys_keep_the_direction() {
    let mut g = ready_to_step(fresh());
    g.head = (5, 4);
    g.body = vec![(4, 4), (3, 4)];
    g.flower = (11, 7);
    g.frame(input(10, 0, key(65)));
    assert_eq!(g.direction, (1, 0));
    assert_eq!(g.head, (6, 4));
}

#[test]
fn leaving_the_map_crashes() {
    let mut g = ready_to_step(fresh());
    g.flower = (11, 7);
    let out = g.frame(input(10, 0, key(37)));
    assert!(out.crashed);
    assert!(!out.moved);
    assert_eq!(g.failed_time, Some(10));
    assert_eq!(g.head, (0, 4));
    assert_eq!(g.body, vec![(0, 4), (0, 4)]);
}

#[test]
fn biting_the_body_crashes_but_the_tail_moves_away() {
    // a snake curled on a square: head (5,5), body (5,4) (6,4) (6,5)
    let mut g = ready_to_step(fresh());
    g.head = (5, 5);
    g.body = vec![(5, 4), (6, 4), (6, 5), (6, 6)];
    g.flower = (0, 0);
    let out = g.frame(input(10, 0, key(38)));
    assert!(out.crashed);

    let mut h = ready_to_step(fresh());
    h.head = (5, 5);
    h.body = vec![(5, 4), (6, 4), (6, 5)];
    h.flower = (0, 0);
    let out = h.frame(input(10, 0, key(39)));
    assert!(out.moved);
    assert_eq!(h.head, (6, 5));
    assert_eq!(h.body, vec![(5, 5), (5, 4), (6, 4)]);
}

#[test]
fn eating_grows_and_rewards() {
    let mut g = ready_to_step(fresh());
    g.head = (3, 3);
    g.body = vec![(2, 3), (1, 3)];
    g.flower = (4, 3);
    let out = g.frame(input(10, 0, no_key()));
    assert!(out.moved && out.ate);
    assert_eq!(out.score_tone, Some(ScoreTone::Reward));
    assert_eq!(g.score, 200);
    assert_eq!(g.head, (4, 3));
    assert_eq!(g.body, vec![(3, 3), (2, 3), (2, 3)]);
    assert!(!on_snake(&g, g.flower));
}

#[test]
fn a_meal_that_fills_the_map_is_not_defined() {
    // the snake covers every cell but (11,7), where the flower is: after the
    // meal no cell would be left for a new flower
    let mut body: Vec<Pos> = Vec::new();
    for k in 0..95i32 {
        body.push((k % 12, k / 12));
    }
    body.reverse();
    let mut g = ready_to_step(fresh());
    g.head = (10, 7);
    g.body = body[1..].to_vec();
    g.body.push((0, 0));
    g.flower = (11, 7);
    assert_eq!(g.body[0], (9, 7));
    assert!(!g.frame_is_defined(input(10, 0, no_key())));
    // with the tail leaving (0,0) free, the meal can be taken
    g.body.pop();
    assert!(g.frame_is_defined(input(10, 0, no_key())));
    let out = g.frame(input(10, 0, no_key()));
    assert!(out.ate);
    assert_eq!(g.flower, (0, 0));
}

#[test]
fn a_second_press_before_the_step_costs_points() {
    let mut g = fresh();
    let out = g.frame(input(10, -2_000_000_000, key(38)));
    assert!(out.score_tone.is_none());
    assert_eq!(g.effective_key, Some(key(38)));
    let out = g.frame(input(20, -2_000_000_000, KeyState { key_code: 38, is_down: false }));
    assert!(out.score_tone.is_none());
    let out = g.frame(input(30, -2_000_000_000, key(37)));
    assert_eq!(out.score_tone, Some(ScoreTone::Penalty));
    assert_eq!(g.score, 90);
    assert_eq!(g.effective_key, Some(key(37)));
    assert_eq!(g.effective_key_time, 30);
}

#[test]
fn holding_the_same_key_is_no_new_press() {
    let mut g = fresh();
    g.frame(input(10, -2_000_000_000, key(38)));
    let out = g.frame(input(20, -2_000_000_000, key(38)));
    assert!(out.score_tone.is_none());
    assert_eq!(g.effective_key_time, 10);
}

#[test]
fn an_unused_press_runs_out_and_costs_points() {
    let mut g = fresh();
    g.frame(input(10, -2_000_000_000, key(40)));
    let out = g.frame(input(10 + KEY_TIME_110, -2_000_000_000, key(40)));
    assert!(out.score_tone.is_none());
    let out = g.frame(input(11 + KEY_TIME_110, -2_000_000_000, key(40)));
    assert_eq!(out.score_tone, Some(ScoreTone::Penalty));
    assert_eq!(g.score, 90);
    assert!(g.effective_key.is_none());
    assert_eq!(g.effective_key_time, 11 + KEY_TIME_110);
}

#[test]
fn the_level_ends_five_seconds_after_a_crash() {
    let mut g = fresh();
    g.failed_time = Some(1_000);
    g.can_move_time = Some(0);
    let out = g.frame(input(5_000_001_000, -2_000_000_000, no_key()));
    assert!(!out.finished && !out.moved);
    let out = g.frame(input(5_000_001_001, -2_000_000_000, no_key()));
    assert!(out.finished);
    assert_eq!(g.head, (0, 4));
}

#[test]
fn music_starting_over_resets_the_beats() {
    let mut g = fresh();
    g.prev_instant = 10_000_000_000;
    g.beats_offset = 17;
    let out = g.frame(input(10, 0, no_key()));
    assert_eq!(g.beats_offset, 0);
    assert_eq!(out.beat.expect("a beat").highlight, 0);
    assert_eq!(g.prev_instant, 150_000_000 - STEP_110);
}

#[test]
fn last_segment_shows_the_first_as_next() {
    let mut g = fresh();
    g.beats_offset = 8 * 15 - 1;
    g.prev_instant = 0;
    let out = g.frame(input(10, STEP_110, no_key()));
    let marks: String = out.beat.expect("a beat").marks.iter().collect();
    assert_eq!(marks, "x-xxxxx-x-x-x-x-");
}

#[test]
fn running_past_the_patterns_is_not_defined() {
    let mut g = fresh();
    g.beats_offset = 8 * 16 - 1;
    g.prev_instant = 0;
    assert!(!g.frame_is_defined(input(10, STEP_110, no_key())));
    assert!(g.frame_is_defined(input(10, 0, no_key())));
}

#[test]
fn score_overflow_is_not_defined() {
    let mut g = fresh();
    g.effective_key = Some(key(38));
    g.score = i32::MIN + 5;
    assert!(!g.frame_is_defined(input(10, -2_000_000_000, key(37))));
    let mut h = ready_to_step(fresh());
    h.head = (3, 3);
    h.body = vec![(2, 3), (1, 3)];
    h.flower = (4, 3);
    h.score = i32::MAX - 50;
    assert!(!h.frame_is_defined(input(10, 0, no_key())));
    h.flower = (5, 5);
    assert!(h.frame_is_defined(input(10, 0, no_key())));
}

#[test]
fn free_cells_of_new_snake() {
    let g = fresh();
    let free = free_cells_of(g.head, &g.body);
    assert_eq!(free.len(), 95);
    assert_eq!(free[0], (0, 0));
    assert!(!free.contains(&(0, 4)));
}

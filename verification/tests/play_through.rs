use snaky_rhythm::game::{eye_picture, FrameInput, Game, KeyState};
use snaky_rhythm::level::{level, LevelStates};
use rand::Rng;

fn on_map(p: (i32, i32)) -> bool {
    0 <= p.0 && p.0 < 12 && 0 <= p.1 && p.1 < 8
}

#[test]
fn a_long_random_game_keeps_the_snake_whole() {
    let mut rng = rand::thread_rng();
    for round in 0..20 {
        let mut g = Game::new(level(round % 3), KeyState { key_code: 0, is_down: false }, 0);
        let step = g.step as u64;
        let mut meals: i32 = 0;
        let mut penalties: i32 = 0;
        let mut crash: Option<((i32, i32), Vec<(i32, i32)>, (i32, i32))> = None;
        let mut time: u64 = 0;
        let mut audio: i64 = 0;
        for _ in 0..2000 {
            time += step / 4;
            audio += (step / 4) as i64;
            if audio > 60_000_000_000 {
                audio = 0;
            }
            let code = 37 + rng.gen_range(0..5);
            let key = KeyState { key_code: code, is_down: rng.gen_range(0..3) == 0 };
            let input = FrameInput { time, now: time, audio_time: audio, key };
            if !g.frame_is_defined(input) {
                break;
            }
            let len = g.body.len();
            let score = g.score;
            let head = g.head;
            let out = g.frame(input);
            assert!(on_map(g.head));
            assert_eq!(g.body.len(), len + if out.ate { 1 } else { 0 });
            if out.ate {
                assert!(g.score == score + 100 || g.score == score + 90);
                meals += 1;
                if g.score == score + 90 {
                    penalties += 1;
                }
            } else if out.score_tone.is_some() {
                assert_eq!(g.score, score - 10);
                penalties += 1;
            } else {
                assert_eq!(g.score, score);
            }
            assert_eq!(g.body.len() as i32, 2 + meals);
            assert_eq!(g.score, 100 + 100 * meals - 10 * penalties);
            if let Some((h, b, f)) = &crash {
                assert!(!out.moved && !out.ate && !out.crashed);
                assert_eq!((g.head, &g.body, g.flower), (*h, b, *f));
            }
            if out.crashed {
                crash = Some((g.head, g.body.clone(), g.flower));
            }
            if out.moved {
                assert!(!g.body[..].contains(&g.head));
                assert_eq!((g.head.0 - head.0).abs() + (g.head.1 - head.1).abs(), 1);
            } else {
                assert_eq!(g.head, head);
            }
            assert!(on_map(g.flower));
            assert!(g.flower != g.head && !g.body.contains(&g.flower));
            if out.finished {
                assert!(g.failed_time.is_some());
                break;
            }
        }
    }
}

#[test]
fn a_crashed_snake_stays_put() {
    let mut g = Game::new(level(0), KeyState { key_code: 0, is_down: false }, 0);
    g.failed_time = Some(0);
    g.can_move_time = Some(0);
    let body = g.body.clone();
    let out = g.frame(FrameInput { time: 100, now: 100, audio_time: 0, key: KeyState { key_code: 37, is_down: true } });
    assert!(!out.moved && !out.crashed && !out.ate);
    assert_eq!(g.head, (0, 4));
    assert_eq!(g.body, body);
    assert_eq!(g.direction, (1, 0));
}

#[test]
fn a_short_pattern_is_not_defined_when_shown() {
    let states = LevelStates { position: (0, 4), audio_id: 0, beats_per_min: 120, patterns: vec!["x-x-x-x-", "x-x"] };
    let mut g = Game::new(states, KeyState { key_code: 0, is_down: false }, 0);
    // the first beat shows segment 0 and, as next, the short one
    assert!(!g.frame_is_defined(FrameInput { time: 1, now: 1, audio_time: 0, key: KeyState { key_code: 0, is_down: false } }));
    g.prev_instant = 0;
    assert!(g.frame_is_defined(FrameInput { time: 1, now: 1, audio_time: 0, key: KeyState { key_code: 0, is_down: false } }));
}

#[test]
fn tempo_sets_beat_and_key_window() {
    let fast = LevelStates { position: (0, 0), audio_id: 0, beats_per_min: 600, patterns: vec!["x-x-x-x-"] };
    let g = Game::new(fast, KeyState { key_code: 0, is_down: false }, 0);
    assert_eq!(g.step, 100_000_000);
    assert_eq!(g.key_time, 0);
    let slow = LevelStates { position: (0, 0), audio_id: 0, beats_per_min: 10, patterns: vec!["x-x-x-x-"] };
    let g = Game::new(slow, KeyState { key_code: 0, is_down: false }, 0);
    assert_eq!(g.step, 6_000_000_000);
    assert_eq!(g.key_time, u32::MAX as u64);
    let mid = LevelStates { position: (0, 0), audio_id: 0, beats_per_min: 120, patterns: vec!["x-x-x-x-"] };
    let g = Game::new(mid, KeyState { key_code: 0, is_down: false }, 0);
    assert_eq!(g.step, 500_000_000);
    assert_eq!(g.key_time, 400_000_000);
    assert_eq!(g.prev_instant, 150_000_000 - 1_000_000_000);
}

#[test]
fn eye_pictures() {
    assert_eq!(eye_picture(0), 0);
    assert_eq!(eye_picture(1), 1);
    assert_eq!(eye_picture(2), 0);
    assert_eq!(eye_picture(3), 2);
}

#[test]
fn playable_settings() {
    assert!(level(0).playable());
    let silent = LevelStates { position: (0, 0), audio_id: 0, beats_per_min: 0, patterns: vec!["x-x-x-x-"] };
    assert!(!silent.playable());
}

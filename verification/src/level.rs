//! What a level is made of, and the levels of the game.

use crate::grid::Pos;
use vstd::prelude::*;

verus! {

/// The settings of a level.
pub struct LevelStates {
    /// The cell the snake starts on.
    pub position: Pos,
    /// The music played during the level.
    pub audio_id: i32,
    /// The tempo of the music, in beats per minute.
    pub beats_per_min: u32,
    /// The beat patterns, one segment of eight beats each: `x` marks a beat
    /// on which the snake advances, `-` a rest.
    pub patterns: Vec<&'static str>,
}

/// Segments have eight beats.
pub const BEATS_PER_SEGMENT: usize = 8;

impl LevelStates {
    /// The settings can be played: a positive tempo, and no more patterns
    /// than an `i32` counts.
    pub open spec fn wf(&self) -> bool {
        &&& self.beats_per_min > 0
        &&& self.patterns@.len() <= i32::MAX
    }

    /// Whether the settings can be played (see `wf`).
    pub fn playable(&self) -> (r: bool)
        ensures
            r == self.wf(),
    {
        self.beats_per_min > 0 && self.patterns.len() <= i32::MAX as usize
    }
}

/// A pattern with four beats on which to move.
pub open spec fn pattern_four() -> Seq<char> {
    "x-x-x-x-"@
}

/// A pattern with three beats on which to move, the last one late.
pub open spec fn pattern_three_late() -> Seq<char> {
    "x---x-x-"@
}

/// A pattern with three beats on which to move, the last one early.
pub open spec fn pattern_three_early() -> Seq<char> {
    "x-x-x---"@
}

/// A pattern with a single beat on which to move.
pub open spec fn pattern_one() -> Seq<char> {
    "x-------"@
}

/// A pattern with a run of five beats on which to move.
pub open spec fn pattern_run() -> Seq<char> {
    "x-xxxxx-"@
}

/// The patterns of the level with the given index.
pub open spec fn level_patterns(index: usize) -> Seq<Seq<char>> {
    if index == 1 {
        seq![
            pattern_three_late(), pattern_four(), pattern_three_late(), pattern_three_early(),
            pattern_three_late(), pattern_four(), pattern_three_late(), pattern_three_early(),
            pattern_three_late(), pattern_four(), pattern_three_late(), pattern_three_early(),
            pattern_three_late(), pattern_four(), pattern_three_late(), pattern_one(),
        ]
    } else if index == 2 {
        seq![
            pattern_three_late(), pattern_four(), pattern_three_late(), pattern_run(),
            pattern_three_late(), pattern_four(), pattern_three_late(), pattern_run(),
            pattern_three_late(), pattern_four(), pattern_three_late(), pattern_run(),
            pattern_three_late(), pattern_four(), pattern_three_late(), pattern_run(),
        ]
    } else {
        seq![
            pattern_four(), pattern_four(), pattern_four(), pattern_run(),
            pattern_four(), pattern_four(), pattern_four(), pattern_run(),
            pattern_four(), pattern_four(), pattern_four(), pattern_run(),
            pattern_four(), pattern_four(), pattern_four(), pattern_run(),
        ]
    }
}

/// The settings of the level with the given index (there are three:
/// 0, 1 and 2).
pub fn level(index: usize) -> (r: LevelStates)
    requires
        index <= 2,
    ensures
        r.position == (0i32, 4i32),
        r.audio_id == (if index == 0 { 2i32 } else if index == 1 { 0i32 } else { 1i32 }),
        r.beats_per_min == (if index == 0 { 110u32 } else if index == 1 { 130u32 } else { 140u32 }),
        r.patterns@.map_values(|s: &str| s@) == level_patterns(index),
        r.wf(),
        forall|i: int| 0 <= i < r.patterns@.len() ==> #[trigger] r.patterns@[i]@.len() == BEATS_PER_SEGMENT,
        r.patterns@.len() == 16,
        index == 0 ==> forall|k: int|
            0 <= k < 16 ==> #[trigger] r.patterns@[k]@ == (if k % 4 == 3 {
                "x-xxxxx-"@
            } else {
                "x-x-x-x-"@
            }),
        index == 1 ==> forall|k: int|
            0 <= k < 16 ==> #[trigger] r.patterns@[k]@ == (if k == 15 {
                "x-------"@
            } else if k % 2 == 0 {
                "x---x-x-"@
            } else if k % 4 == 1 {
                "x-x-x-x-"@
            } else {
                "x-x-x---"@
            }),
        index == 2 ==> forall|k: int|
            0 <= k < 16 ==> #[trigger] r.patterns@[k]@ == (if k % 2 == 0 {
                "x---x-x-"@
            } else if k % 4 == 1 {
                "x-x-x-x-"@
            } else {
                "x-xxxxx-"@
            }),
{
    proof {
        reveal_strlit("x-x-x-x-");
        reveal_strlit("x---x-x-");
        reveal_strlit("x-x-x---");
        reveal_strlit("x-------");
        reveal_strlit("x-xxxxx-");
    }
    let r = match index {
        1 => LevelStates {
            position: (0, 4),
            audio_id: 0,
            beats_per_min: 130,
            patterns: vec![
                "x---x-x-",
                "x-x-x-x-",
                "x---x-x-",
                "x-x-x---",
                "x---x-x-",
                "x-x-x-x-",
                "x---x-x-",
                "x-x-x---",
                "x---x-x-",
                "x-x-x-x-",
                "x---x-x-",
                "x-x-x---",
                "x---x-x-",
                "x-x-x-x-",
                "x---x-x-",
                "x-------",
            ],
        },
        2 => LevelStates {
            position: (0, 4),
            audio_id: 1,
            beats_per_min: 140,
            patterns: vec![
                "x---x-x-",
                "x-x-x-x-",
                "x---x-x-",
                "x-xxxxx-",
                "x---x-x-",
                "x-x-x-x-",
                "x---x-x-",
                "x-xxxxx-",
                "x---x-x-",
                "x-x-x-x-",
                "x---x-x-",
                "x-xxxxx-",
                "x---x-x-",
                "x-x-x-x-",
                "x---x-x-",
                "x-xxxxx-",
            ],
        },
        _ => LevelStates {
            position: (0, 4),
            audio_id: 2,
            beats_per_min: 110,
            patterns: vec![
                "x-x-x-x-",
                "x-x-x-x-",
                "x-x-x-x-",
                "x-xxxxx-",
                "x-x-x-x-",
                "x-x-x-x-",
                "x-x-x-x-",
                "x-xxxxx-",
                "x-x-x-x-",
                "x-x-x-x-",
                "x-x-x-x-",
                "x-xxxxx-",
                "x-x-x-x-",
                "x-x-x-x-",
                "x-x-x-x-",
                "x-xxxxx-",
            ],
        },
    };
    assert(r.patterns@.map_values(|s: &str| s@) =~= level_patterns(index));
    assert forall|k: int| 0 <= k < 16 implies #[trigger] r.patterns@[k]@ == r.patterns@.map_values(
        |s: &str| s@,
    )[k] by {}
    r
}

} // verus!

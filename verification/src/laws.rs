//! What every frame of a game keeps, stated over the frame's contract.

use crate::game::{
    elapsed, first_instant, is_direction, turned, FrameInput, Game, KeyState, FLOWER_REWARD,
    GAME_OVER_DELAY, KEY_DOWN, KEY_LEFT, KEY_PENALTY, KEY_RIGHT, KEY_UP,
};
use crate::level::BEATS_PER_SEGMENT;
use crate::grid::{free_cells, in_map, lemma_free_cell_is_clear, Pos};
use vstd::prelude::*;

verus! {

/// Turning keeps the snake on one of the four directions, and only an arrow
/// key turns it.
pub proof fn lemma_turn(dir: Pos, key: Option<KeyState>)
    requires
        is_direction(dir),
    ensures
        is_direction(turned(dir, key)),
        (key matches Some(k) ==> k.key_code != KEY_LEFT && k.key_code != KEY_UP && k.key_code
            != KEY_RIGHT && k.key_code != KEY_DOWN) ==> turned(dir, key) == dir,
        key is None ==> turned(dir, key) == dir,
{
}

/// The snake grows by exactly one segment for each flower it eats, and keeps
/// its length otherwise.
pub proof fn lemma_length_follows_flowers(g: Game, inp: FrameInput)
    requires
        g.inv(),
    ensures
        g.body_after(inp).len() == g.body@.len() + (if g.eats(inp) { 1int } else { 0int }),
{
}

/// A step moves the head to a neighbouring cell; without a step the head
/// stays.
pub proof fn lemma_one_cell_per_frame(g: Game, inp: FrameInput)
    requires
        g.inv(),
        g.frame_defined(inp),
    ensures
        g.advances(inp) ==> {
            let h = g.head_after(inp);
            ||| h.0 == g.head.0 - 1 && h.1 == g.head.1
            ||| h.0 == g.head.0 + 1 && h.1 == g.head.1
            ||| h.0 == g.head.0 && h.1 == g.head.1 - 1
            ||| h.0 == g.head.0 && h.1 == g.head.1 + 1
        },
        !g.advances(inp) ==> g.head_after(inp) == g.head,
{
    lemma_turn(g.direction, g.key_after(inp));
}

/// After a step the head lies on the map and clear of its body: the step
/// never leaves the snake on itself.
pub proof fn lemma_step_clear_of_body(g: Game, inp: FrameInput)
    requires
        g.inv(),
        g.frame_defined(inp),
        g.advances(inp),
    ensures
        in_map(g.head_after(inp)),
        !g.body_after(inp).contains(g.head_after(inp)),
{
    lemma_turn(g.direction, g.key_after(inp));
    let h = g.head_after(inp);
    let moved = g.moved_body(inp);
    let n = g.body@.len();
    assert(h != g.head);
    assert forall|i: int| 0 <= i < moved.len() implies moved[i] != h by {
        if i > 0 {
            assert(moved[i] == g.body@[i - 1]);
        }
    }
    if g.eats(inp) {
        assert forall|i: int| 0 <= i < g.body_after(inp).len() implies g.body_after(inp)[i] != h by {
            if i == moved.len() {
                assert(g.body_after(inp)[i] == moved[moved.len() - 1]);
            } else {
                assert(g.body_after(inp)[i] == moved[i]);
            }
        }
    }
}

/// A flower placed after a meal lies on the map, off the head and off every
/// segment of the grown body.
pub proof fn lemma_new_flower_clear(g: Game, inp: FrameInput, p: Pos)
    requires
        g.inv(),
        g.eats(inp),
        free_cells(g.head_after(inp), g.moved_body(inp)).contains(p),
    ensures
        in_map(p),
        p != g.head_after(inp),
        !g.body_after(inp).contains(p),
{
    lemma_free_cell_is_clear(g.head_after(inp), g.moved_body(inp), p);
    let moved = g.moved_body(inp);
    assert forall|i: int| 0 <= i < g.body_after(inp).len() implies g.body_after(inp)[i] != p by {
        if i == moved.len() {
            assert(g.body_after(inp)[i] == moved[moved.len() - 1]);
            assert(moved.contains(moved[moved.len() - 1]));
        } else {
            assert(g.body_after(inp)[i] == moved[i]);
            assert(moved.contains(moved[i]));
        }
    }
}

/// The points change by one of four amounts in a frame: nothing, a penalty,
/// a reward, or both.
pub proof fn lemma_score_steps(g: Game, inp: FrameInput)
    ensures
        g.score_after(inp) - g.score == (if g.key_penalty(inp) { -KEY_PENALTY } else { 0int }) + (
        if g.eats(inp) {
            FLOWER_REWARD as int
        } else {
            0int
        }),
{
}

/// A crashed snake no longer moves, turns, grows or eats.
pub proof fn lemma_crashed_snake_stays(g: Game, inp: FrameInput)
    requires
        g.failed_time is Some,
    ensures
        !g.move_due(inp),
        !g.eats(inp),
        g.head_after(inp) == g.head,
        g.body_after(inp) == g.body@,
        g.score_after(inp) == g.score_after_key(inp),
{
}

/// Without a move beat in this frame, a snake whose step was taken (no step
/// pending) cannot step: one step per move beat at most.
pub proof fn lemma_one_step_per_move_beat(g: Game, inp: FrameInput)
    requires
        g.can_move_time is None,
        !(g.beat_advances(inp) && g.move_beat(inp)),
    ensures
        !g.move_due(inp),
{
}

/// A frame counts at most one beat; a rewind of the music starts the count
/// over.
pub proof fn lemma_beat_count(g: Game, inp: FrameInput)
    requires
        g.inv(),
    ensures
        !g.rewinds(inp) ==> g.offset_after(inp) == g.beats_offset || g.offset_after(inp)
            == g.beats_offset + 1,
        g.rewinds(inp) ==> g.offset_after(inp) == -1 || g.offset_after(inp) == 0,
        g.offset_after(inp) >= -1,
{
}

/// The flower never lies under the snake: a flower that is not eaten in a
/// frame stays clear of head and body (and a flower placed after a meal is
/// clear, see `lemma_new_flower_clear`).
pub proof fn lemma_flower_stays_clear(g: Game, inp: FrameInput)
    requires
        g.inv(),
        g.frame_defined(inp),
        !g.eats(inp),
    ensures
        g.flower != g.head_after(inp),
        !g.body_after(inp).contains(g.flower),
{
    let p = g.flower;
    if g.advances(inp) {
        let moved = g.moved_body(inp);
        assert forall|i: int| 0 <= i < moved.len() implies moved[i] != p by {
            if i > 0 {
                assert(moved[i] == g.body@[i - 1]);
                assert(g.body@.contains(g.body@[i - 1]));
            }
        }
    }
}

/// Head, body and flower that lie on the map stay on it through a frame.
pub proof fn lemma_on_board_step(pre: Game, inp: FrameInput, post: Game)
    requires
        pre.inv(),
        pre.frame_defined(inp),
        pre.steps_to(inp, post),
        pre.on_board(),
    ensures
        post.on_board(),
{
    if pre.advances(inp) {
        let moved = pre.moved_body(inp);
        assert forall|i: int| 0 <= i < moved.len() implies in_map(#[trigger] moved[i]) by {
            if i > 0 {
                assert(moved[i] == pre.body@[i - 1]);
            }
        }
        assert forall|i: int| 0 <= i < post.body@.len() implies in_map(#[trigger] post.body@[i]) by {
            if i < moved.len() {
                assert(post.body@[i] == moved[i]);
            } else {
                assert(post.body@[i] == moved[moved.len() - 1]);
            }
        }
        if pre.eats(inp) {
            lemma_free_cell_is_clear(post.head, moved, post.flower);
        }
    }
}

/// A play: games one after the other, each the state that `Game::frame`
/// leaves after the one before it, on an input it can play.
pub open spec fn is_play(games: Seq<Game>, inputs: Seq<FrameInput>) -> bool {
    &&& games.len() == inputs.len() + 1
    &&& games[0].inv()
    &&& forall|i: int|
        #![trigger inputs[i]]
        0 <= i < inputs.len() ==> games[i].frame_defined(inputs[i]) && games[i].steps_to(
            inputs[i],
            games[i + 1],
        )
}

/// The flowers eaten in the first `n` frames of a play.
pub open spec fn meals(games: Seq<Game>, inputs: Seq<FrameInput>, n: int) -> int
    decreases n,
{
    if n <= 0 {
        0
    } else {
        meals(games, inputs, n - 1) + if games[n - 1].eats(inputs[n - 1]) {
            1int
        } else {
            0int
        }
    }
}

/// The key presses dropped unused in the first `n` frames of a play.
pub open spec fn penalties(games: Seq<Game>, inputs: Seq<FrameInput>, n: int) -> int
    decreases n,
{
    if n <= 0 {
        0
    } else {
        penalties(games, inputs, n - 1) + if games[n - 1].key_penalty(inputs[n - 1]) {
            1int
        } else {
            0int
        }
    }
}

/// Every game of a play is a game in play (see `Game::inv`).
pub proof fn lemma_play_inv(games: Seq<Game>, inputs: Seq<FrameInput>, n: int)
    requires
        is_play(games, inputs),
        0 <= n <= inputs.len(),
    ensures
        games[n].inv(),
{
    if n > 0 {
        assert(games[n - 1].steps_to(inputs[n - 1], games[n]));
    }
}

/// Over a play the snake grows by exactly one segment per flower eaten: a
/// level's snake, which starts with two segments, has two plus the flowers
/// eaten so far.
pub proof fn lemma_play_length(games: Seq<Game>, inputs: Seq<FrameInput>, n: int)
    requires
        is_play(games, inputs),
        0 <= n <= inputs.len(),
    ensures
        games[n].body@.len() == games[0].body@.len() + meals(games, inputs, n),
    decreases n,
{
    if n > 0 {
        lemma_play_length(games, inputs, n - 1);
        lemma_play_inv(games, inputs, n - 1);
        assert(games[n - 1].steps_to(inputs[n - 1], games[n]));
        lemma_length_follows_flowers(games[n - 1], inputs[n - 1]);
    }
}

/// Over a play the points are the starting points, plus the reward of every
/// flower eaten, less the penalty of every key press dropped unused.
pub proof fn lemma_play_score(games: Seq<Game>, inputs: Seq<FrameInput>, n: int)
    requires
        is_play(games, inputs),
        0 <= n <= inputs.len(),
    ensures
        games[n].score == games[0].score + FLOWER_REWARD * meals(games, inputs, n) - KEY_PENALTY
            * penalties(games, inputs, n),
    decreases n,
{
    if n > 0 {
        lemma_play_score(games, inputs, n - 1);
        assert(games[n - 1].steps_to(inputs[n - 1], games[n]));
        lemma_score_steps(games[n - 1], inputs[n - 1]);
    }
}

/// A play that starts on the map stays on it: head, every body segment and
/// the flower lie on the map in every game of the play.
pub proof fn lemma_play_on_board(games: Seq<Game>, inputs: Seq<FrameInput>, n: int)
    requires
        is_play(games, inputs),
        0 <= n <= inputs.len(),
        games[0].on_board(),
    ensures
        games[n].on_board(),
    decreases n,
{
    if n > 0 {
        lemma_play_on_board(games, inputs, n - 1);
        lemma_play_inv(games, inputs, n - 1);
        assert(games[n - 1].steps_to(inputs[n - 1], games[n]));
        lemma_on_board_step(games[n - 1], inputs[n - 1], games[n]);
    }
}

/// Once the snake has crashed (in game `k` of a play), no later frame moves
/// the snake or the flower, eats, or wins points, and the crash time stays;
/// the level ends on exactly the frames that come more than the delay after
/// the crash.
pub proof fn lemma_play_after_crash(games: Seq<Game>, inputs: Seq<FrameInput>, k: int, n: int)
    requires
        is_play(games, inputs),
        0 <= k <= n <= inputs.len(),
        games[k].failed_time is Some,
    ensures
        games[n].failed_time == games[k].failed_time,
        games[n].head == games[k].head,
        games[n].body@ == games[k].body@,
        games[n].flower == games[k].flower,
        meals(games, inputs, n) == meals(games, inputs, k),
        games[n].score <= games[k].score,
        n < inputs.len() ==> (games[n].finishes(inputs[n]) <==> elapsed(
            inputs[n].time,
            games[k].failed_time->0,
        ) > GAME_OVER_DELAY),
    decreases n - k,
{
    if n > k {
        lemma_play_after_crash(games, inputs, k, n - 1);
        assert(games[n - 1].steps_to(inputs[n - 1], games[n]));
        lemma_crashed_snake_stays(games[n - 1], inputs[n - 1]);
    }
}

/// The step of a frame turns the snake by the waiting key press: left, up,
/// right or down for the arrow keys, no turn for any other key or for none;
/// and the key press is used up by the step.
pub proof fn lemma_step_turns(pre: Game, inp: FrameInput, post: Game)
    requires
        pre.steps_to(inp, post),
        pre.move_due(inp),
    ensures
        post.effective_key is None,
        post.can_move_time is None,
        (pre.key_after(inp) matches Some(k) && k.key_code == KEY_LEFT)
            ==> post.direction == (-1i32, 0i32),
        (pre.key_after(inp) matches Some(k) && k.key_code == KEY_UP)
            ==> post.direction == (0i32, -1i32),
        (pre.key_after(inp) matches Some(k) && k.key_code == KEY_RIGHT)
            ==> post.direction == (1i32, 0i32),
        (pre.key_after(inp) matches Some(k) && k.key_code == KEY_DOWN)
            ==> post.direction == (0i32, 1i32),
        (pre.key_after(inp) matches Some(k) ==> k.key_code != KEY_LEFT && k.key_code != KEY_UP
            && k.key_code != KEY_RIGHT && k.key_code != KEY_DOWN) ==> post.direction
            == pre.direction,
{
}

/// A frame counts a beat when the music clock is a beat past the last one
/// (after a rewind, past the clock's first value): the clock moves on by one
/// beat and the count by one; a move beat opens a step the key window later.
/// Otherwise clock and count stay (or restart, after a rewind).
pub proof fn lemma_beat_step(pre: Game, inp: FrameInput, post: Game)
    requires
        pre.inv(),
        pre.steps_to(inp, post),
    ensures
        pre.rewinds(inp) <==> inp.audio_time < pre.prev_instant,
        pre.beat_advances(inp) ==> post.prev_instant == pre.base_instant(inp) + pre.step
            && post.beats_offset == pre.base_offset(inp) + 1,
        !pre.beat_advances(inp) ==> post.prev_instant == pre.base_instant(inp)
            && post.beats_offset == pre.base_offset(inp),
        pre.rewinds(inp) ==> pre.base_instant(inp) == first_instant(pre.step as int)
            && pre.base_offset(inp) == -1,
        pre.beat_advances(inp) && pre.move_beat(inp) && !pre.move_due(inp)
            ==> post.can_move_time == Some((inp.time + pre.key_time) as u64),
        !(pre.beat_advances(inp) && pre.move_beat(inp)) && !pre.move_due(inp)
            ==> post.can_move_time == pre.can_move_time,
{
}

/// With patterns that each hold a full segment, and music that starts over
/// before it runs past the patterns, a frame reads no pattern that is not
/// there nor a mark beyond a pattern's end, and the body is never empty.
pub proof fn lemma_patterns_suffice(g: Game, inp: FrameInput)
    requires
        g.inv(),
        g.patterns@.len() > 0,
        forall|i: int|
            0 <= i < g.patterns@.len() ==> #[trigger] g.patterns@[i]@.len() >= BEATS_PER_SEGMENT,
        g.beat_advances(inp) ==> g.new_offset(inp) < BEATS_PER_SEGMENT * g.patterns@.len(),
    ensures
        g.beat_advances(inp) ==> {
            &&& 0 <= g.segment(inp) < g.patterns@.len()
            &&& 0 <= g.next_segment(inp) < g.patterns@.len()
            &&& g.patterns@[g.segment(inp)]@.len() >= BEATS_PER_SEGMENT
            &&& g.patterns@[g.next_segment(inp)]@.len() >= BEATS_PER_SEGMENT
            &&& 0 <= g.highlight(inp) < BEATS_PER_SEGMENT
        },
        g.body@.len() >= 1,
{
}

/// A step that does not crash: the head takes the next cell, the first body
/// segment takes the old head's cell, every other segment the cell of the one
/// before it. Off the flower, length, flower and the points of the step stay;
/// onto the flower, the body grows by a copy of its last segment, the step
/// wins the reward, and a new flower grows on a free cell.
pub proof fn lemma_move_step(pre: Game, inp: FrameInput, post: Game)
    requires
        pre.inv(),
        pre.frame_defined(inp),
        pre.steps_to(inp, post),
        pre.advances(inp),
    ensures
        post.head == pre.next_head(inp),
        post.head.0 == pre.head.0 + pre.new_direction(inp).0,
        post.head.1 == pre.head.1 + pre.new_direction(inp).1,
        post.body@[0] == pre.head,
        forall|i: int| 1 <= i < pre.body@.len() ==> post.body@[i] == pre.body@[i - 1],
        pre.flower != post.head ==> {
            &&& post.body@.len() == pre.body@.len()
            &&& post.flower == pre.flower
            &&& post.score == pre.score_after_key(inp)
        },
        pre.flower == post.head ==> {
            &&& post.body@.len() == pre.body@.len() + 1
            &&& post.body@[pre.body@.len() as int] == post.body@[pre.body@.len() - 1]
            &&& post.score == pre.score_after_key(inp) + FLOWER_REWARD
            &&& free_cells(post.head, pre.moved_body(inp)).contains(post.flower)
        },
{
    let moved = pre.moved_body(inp);
    assert(moved[0] == pre.head);
    assert forall|i: int| 1 <= i < pre.body@.len() implies post.body@[i] == pre.body@[i - 1] by {
        assert(moved[i] == pre.body@[i - 1]);
    }
}

/// A step crashes exactly when the next cell is off the map or on a body
/// segment other than the last; the crash leaves head, body and flower, and
/// the step wins nothing.
pub proof fn lemma_crash_step(pre: Game, inp: FrameInput, post: Game)
    requires
        pre.inv(),
        pre.frame_defined(inp),
        pre.steps_to(inp, post),
        pre.move_due(inp),
    ensures
        pre.crashes(inp) <==> (!in_map(pre.next_head(inp)) || exists|i: int|
            0 <= i < pre.body@.len() - 1 && pre.body@[i] == pre.next_head(inp)),
        pre.crashes(inp) ==> {
            &&& post.failed_time == Some(inp.now)
            &&& post.head == pre.head
            &&& post.body@ == pre.body@
            &&& post.flower == pre.flower
            &&& post.score == pre.score_after_key(inp)
        },
{
}

} // verus!

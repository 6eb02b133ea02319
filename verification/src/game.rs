//! A level in play: one call of `Game::frame` per animation frame decides
//! what the key presses, the music's clock and the snake's position lead to.
//! Times are nanoseconds: `time` and `now` on a monotonic clock, the audio
//! time on the clock of the playing music.

use crate::grid::{
    body_hit, cell_at, choose_flower, draw_free_cell, free_cells, free_cells_of, hits_body, in_map,
    lemma_free_cell_exists, lemma_free_cell_is_clear, on_map, same_pos, shift_body, shifted_body,
    shifted_copy, Pos,
};
use crate::laws::{lemma_flower_stays_clear, lemma_new_flower_clear};
use crate::level::{LevelStates, BEATS_PER_SEGMENT};
use crate::random::thread_rng;
use vstd::prelude::*;

verus! {

/// Key code of the left arrow.
pub const KEY_LEFT: i32 = 37;

/// Key code of the up arrow.
pub const KEY_UP: i32 = 38;

/// Key code of the right arrow.
pub const KEY_RIGHT: i32 = 39;

/// Key code of the down arrow.
pub const KEY_DOWN: i32 = 40;

/// Points at the start of a level.
pub const START_SCORE: i32 = 100;

/// Points lost when a waiting key press is dropped unused: replaced by
/// another press, or run out before the snake stepped.
pub const KEY_PENALTY: i32 = 10;

/// Points won for a flower.
pub const FLOWER_REWARD: i32 = 100;

/// How long the crashed snake stays on screen before the level ends.
pub const GAME_OVER_DELAY: u64 = 5_000_000_000;

/// One minute.
pub const NANOS_PER_MINUTE: i64 = 60_000_000_000;

/// The margin, before the next beat, after which a key press no longer counts.
pub const KEY_MARGIN: i64 = 100_000_000;

/// A slack given to the first beat of the music.
pub const FIRST_BEAT_SLACK: i64 = 150_000_000;

/// The last key event seen: its code, and whether the key is down.
#[derive(Clone, Copy, Debug, PartialEq, Eq, Structural)]
pub struct KeyState {
    pub key_code: i32,
    pub is_down: bool,
}

/// What happens to the score display.
#[derive(Clone, Copy, Debug, PartialEq, Eq, Structural)]
pub enum ScoreTone {
    /// Points were lost.
    Penalty,
    /// Points were won.
    Reward,
}

/// What one frame is given.
#[derive(Clone, Copy)]
pub struct FrameInput {
    /// The time of the frame.
    pub time: u64,
    /// The time read when the frame is handled.
    pub now: u64,
    /// How far the music has played.
    pub audio_time: i64,
    /// The last key event.
    pub key: KeyState,
}

/// What a beat shows: the marks of the current segment followed by those of
/// the next one, which mark is the current beat, and the snake's eyes.
pub struct BeatUpdate {
    pub marks: Vec<char>,
    pub highlight: usize,
    pub eye_frame: i32,
}

/// What a frame changed, for the display to follow.
pub struct FrameOutput {
    /// The score changed, and how.
    pub score_tone: Option<ScoreTone>,
    /// A beat passed.
    pub beat: Option<BeatUpdate>,
    /// The snake crashed in this frame.
    pub crashed: bool,
    /// The snake advanced in this frame.
    pub moved: bool,
    /// The snake ate the flower, grew, and a new flower was placed.
    pub ate: bool,
    /// The level is over: the game returns to the cover.
    pub finished: bool,
    /// After a meal, the index drawn among the free cells for the new flower.
    pub flower_pick: Option<usize>,
}

/// `a - b`, or zero when `b` is later.
pub open spec fn elapsed(a: u64, b: u64) -> int {
    if a >= b {
        a - b
    } else {
        0
    }
}

/// The length of a beat at the given tempo.
pub open spec fn beat_length(beats_per_min: u32) -> int {
    (NANOS_PER_MINUTE as int) / (beats_per_min as int)
}

/// How long a key press stays valid: a beat less the margin, cut to the
/// range of a `u32` count of nanoseconds.
pub open spec fn key_window(step: int) -> int {
    if step - KEY_MARGIN <= 0 {
        0
    } else if step - KEY_MARGIN > u32::MAX {
        u32::MAX as int
    } else {
        step - KEY_MARGIN
    }
}

/// The music clock's value before the first beat: two beats before a slack.
pub open spec fn first_instant(step: int) -> int {
    FIRST_BEAT_SLACK - 2 * step
}

/// The four directions the snake can head in.
pub open spec fn is_direction(d: Pos) -> bool {
    d == (-1i32, 0i32) || d == (0i32, -1i32) || d == (1i32, 0i32) || d == (0i32, 1i32)
}

/// The direction after the key: an arrow key turns the snake, anything
/// else keeps its direction.
pub open spec fn turned(dir: Pos, key: Option<KeyState>) -> Pos {
    match key {
        Some(k) => if k.key_code == KEY_LEFT {
            (-1i32, 0i32)
        } else if k.key_code == KEY_UP {
            (0i32, -1i32)
        } else if k.key_code == KEY_RIGHT {
            (1i32, 0i32)
        } else if k.key_code == KEY_DOWN {
            (0i32, 1i32)
        } else {
            dir
        },
        None => dir,
    }
}

/// A level in play.
pub struct Game {
    /// The cell of the head.
    pub head: Pos,
    /// The cells of the body, from the neck to the tail.
    pub body: Vec<Pos>,
    /// The flower.
    pub flower: Pos,
    /// The direction the snake heads in.
    pub direction: Pos,
    /// The points.
    pub score: i32,
    /// The last key event seen.
    pub current_key: KeyState,
    /// The key press waiting for the next beat.
    pub effective_key: Option<KeyState>,
    /// When the waiting key press was taken (or the wait last ran out).
    pub effective_key_time: u64,
    /// When the snake crashed.
    pub failed_time: Option<u64>,
    /// From when the snake may take its next step.
    pub can_move_time: Option<u64>,
    /// The mark of the last beat on which the snake could move.
    pub green_beat: i32,
    /// Which picture of the snake's eyes shows.
    pub eye_frame: i32,
    /// The music clock's value at the last beat.
    pub prev_instant: i64,
    /// The number of beats played, less one.
    pub beats_offset: i32,
    /// The music played.
    pub audio_id: i32,
    /// The beat patterns.
    pub patterns: Vec<&'static str>,
    /// The length of a beat.
    pub step: i64,
    /// How long a key press stays valid.
    pub key_time: u64,
    /// Where the flowers' places are drawn from.
    pub rng: rand::rngs::ThreadRng,
}

impl Game {
    /// What holds of every game in play.
    pub open spec fn inv(&self) -> bool {
        &&& self.body@.len() >= 2
        &&& self.flower != self.head
        &&& !self.body@.contains(self.flower)
        &&& is_direction(self.direction)
        &&& self.patterns@.len() <= i32::MAX
        &&& 0 < self.step <= NANOS_PER_MINUTE
        &&& self.key_time == key_window(self.step as int)
        &&& self.beats_offset >= -1
        &&& 0 <= self.eye_frame < 4
        &&& 0 <= self.green_beat < BEATS_PER_SEGMENT
    }

    // ---- the key ----
    /// A key went down that differs from the last key event.
    pub open spec fn key_pressed(&self, inp: FrameInput) -> bool {
        inp.key.is_down && inp.key != self.current_key
    }

    /// No key went down, and the waiting key press has run out.
    pub open spec fn key_expired(&self, inp: FrameInput) -> bool {
        !self.key_pressed(inp) && elapsed(inp.time, self.effective_key_time) > self.key_time
    }

    /// A waiting key press was dropped: replaced, or run out.
    pub open spec fn key_penalty(&self, inp: FrameInput) -> bool {
        self.effective_key is Some && (self.key_pressed(inp) || self.key_expired(inp))
    }

    /// The waiting key press after the key is read.
    pub open spec fn key_after(&self, inp: FrameInput) -> Option<KeyState> {
        if self.key_pressed(inp) {
            Some(inp.key)
        } else if self.key_expired(inp) {
            None
        } else {
            self.effective_key
        }
    }

    /// When the waiting key press counts from, after the key is read.
    pub open spec fn key_time_after(&self, inp: FrameInput) -> u64 {
        if self.key_pressed(inp) || self.key_expired(inp) {
            inp.time
        } else {
            self.effective_key_time
        }
    }

    /// The points after the key is read.
    pub open spec fn score_after_key(&self, inp: FrameInput) -> int {
        if self.key_penalty(inp) {
            self.score - KEY_PENALTY
        } else {
            self.score as int
        }
    }

    // ---- the beat ----
    /// The music started over.
    pub open spec fn rewinds(&self, inp: FrameInput) -> bool {
        inp.audio_time < self.prev_instant
    }

    /// The music clock of the last beat, after a rewind is taken into account.
    pub open spec fn base_instant(&self, inp: FrameInput) -> int {
        if self.rewinds(inp) {
            first_instant(self.step as int)
        } else {
            self.prev_instant as int
        }
    }

    /// The beats played less one, after a rewind is taken into account.
    pub open spec fn base_offset(&self, inp: FrameInput) -> int {
        if self.rewinds(inp) {
            -1
        } else {
            self.beats_offset as int
        }
    }

    /// A beat has passed since the last one.
    pub open spec fn beat_advances(&self, inp: FrameInput) -> bool {
        inp.audio_time - self.base_instant(inp) >= self.step
    }

    /// The number of the beat that passes.
    pub open spec fn new_offset(&self, inp: FrameInput) -> int {
        self.base_offset(inp) + 1
    }

    /// The segment of the beat that passes.
    pub open spec fn segment(&self, inp: FrameInput) -> int {
        self.new_offset(inp) / (BEATS_PER_SEGMENT as int)
    }

    /// The segment after it, the first one after the last.
    pub open spec fn next_segment(&self, inp: FrameInput) -> int {
        if self.segment(inp) == self.patterns@.len() - 1 {
            0
        } else {
            self.segment(inp) + 1
        }
    }

    /// The place of the passing beat in its segment.
    pub open spec fn highlight(&self, inp: FrameInput) -> int {
        self.new_offset(inp) % (BEATS_PER_SEGMENT as int)
    }

    /// The passing beat is one on which the snake may move.
    pub open spec fn move_beat(&self, inp: FrameInput) -> bool {
        self.patterns@[self.segment(inp)]@[self.highlight(inp)] == 'x'
    }

    /// The marks shown at a beat: the current segment, then the next.
    pub open spec fn beat_marks(&self, inp: FrameInput) -> Seq<char> {
        self.patterns@[self.segment(inp)]@.take(BEATS_PER_SEGMENT as int) + self.patterns@[self.next_segment(
            inp,
        )]@.take(BEATS_PER_SEGMENT as int)
    }

    /// From when the snake may move, after the beat.
    pub open spec fn can_move_after_beat(&self, inp: FrameInput) -> Option<u64> {
        if self.beat_advances(inp) && self.move_beat(inp) {
            Some((inp.time + self.key_time) as u64)
        } else {
            self.can_move_time
        }
    }

    /// The music clock of the last beat, after the frame.
    pub open spec fn instant_after(&self, inp: FrameInput) -> int {
        if self.beat_advances(inp) {
            self.base_instant(inp) + self.step
        } else {
            self.base_instant(inp)
        }
    }

    /// The beats played less one, after the frame.
    pub open spec fn offset_after(&self, inp: FrameInput) -> int {
        if self.beat_advances(inp) {
            self.new_offset(inp)
        } else {
            self.base_offset(inp)
        }
    }

    /// The picture of the eyes, after the frame.
    pub open spec fn eye_after(&self, inp: FrameInput) -> int {
        if self.beat_advances(inp) {
            (self.eye_frame + 1) % 4
        } else {
            self.eye_frame as int
        }
    }

    /// The mark of the last beat on which the snake could move, after the frame.
    pub open spec fn green_after(&self, inp: FrameInput) -> int {
        if self.beat_advances(inp) && self.move_beat(inp) {
            self.highlight(inp)
        } else {
            self.green_beat as int
        }
    }

    // ---- the snake ----
    /// The snake has crashed.
    pub open spec fn is_failed(&self) -> bool {
        self.failed_time is Some
    }

    /// The crash was long enough ago for the level to end.
    pub open spec fn finishes(&self, inp: FrameInput) -> bool {
        self.failed_time matches Some(f) && elapsed(inp.time, f) > GAME_OVER_DELAY
    }

    /// The snake takes a step in this frame.
    pub open spec fn move_due(&self, inp: FrameInput) -> bool {
        &&& !self.is_failed()
        &&& self.can_move_after_beat(inp) matches Some(c)
        &&& c <= inp.time
    }

    /// The direction of the step.
    pub open spec fn new_direction(&self, inp: FrameInput) -> Pos {
        turned(self.direction, self.key_after(inp))
    }

    /// Where the step leads, in unbounded integers.
    pub open spec fn next_column(&self, inp: FrameInput) -> int {
        self.head.0 + self.new_direction(inp).0
    }

    /// Where the step leads, in unbounded integers.
    pub open spec fn next_row(&self, inp: FrameInput) -> int {
        self.head.1 + self.new_direction(inp).1
    }

    /// Where the step leads.
    pub open spec fn next_head(&self, inp: FrameInput) -> Pos {
        (self.next_column(inp) as i32, self.next_row(inp) as i32)
    }

    /// The step leaves the map or runs into the body.
    pub open spec fn crashes(&self, inp: FrameInput) -> bool {
        hits_body(self.body@, self.next_head(inp)) || !in_map(self.next_head(inp))
    }

    /// The snake steps forward without crashing.
    pub open spec fn advances(&self, inp: FrameInput) -> bool {
        self.move_due(inp) && !self.crashes(inp)
    }

    /// The snake steps onto the flower.
    pub open spec fn eats(&self, inp: FrameInput) -> bool {
        self.advances(inp) && self.flower == self.next_head(inp)
    }

    /// The body after the step, before it grows.
    pub open spec fn moved_body(&self, inp: FrameInput) -> Seq<Pos> {
        shifted_body(self.body@, self.head)
    }

    /// The body after the frame.
    pub open spec fn body_after(&self, inp: FrameInput) -> Seq<Pos> {
        if self.eats(inp) {
            self.moved_body(inp).push(self.moved_body(inp).last())
        } else if self.advances(inp) {
            self.moved_body(inp)
        } else {
            self.body@
        }
    }

    /// The head after the frame.
    pub open spec fn head_after(&self, inp: FrameInput) -> Pos {
        if self.advances(inp) {
            self.next_head(inp)
        } else {
            self.head
        }
    }

    /// The points after the frame.
    pub open spec fn score_after(&self, inp: FrameInput) -> int {
        if self.eats(inp) {
            self.score_after_key(inp) + FLOWER_REWARD
        } else {
            self.score_after_key(inp)
        }
    }

    /// `post` is the state that `frame` leaves after this state and input:
    /// each part of it as the spec functions above give it, and after a meal
    /// a new flower on a free cell.
    pub open spec fn steps_to(&self, inp: FrameInput, post: Game) -> bool {
        &&& post.inv()
        &&& post.current_key == inp.key
        &&& post.score == self.score_after(inp)
        &&& post.effective_key == (if self.move_due(inp) { None } else { self.key_after(inp) })
        &&& post.effective_key_time == self.key_time_after(inp)
        &&& post.prev_instant == self.instant_after(inp)
        &&& post.beats_offset == self.offset_after(inp)
        &&& post.eye_frame == self.eye_after(inp)
        &&& post.green_beat == self.green_after(inp)
        &&& post.can_move_time == (if self.move_due(inp) { None } else { self.can_move_after_beat(inp) })
        &&& post.direction == (if self.move_due(inp) { self.new_direction(inp) } else { self.direction })
        &&& post.failed_time == (if self.move_due(inp) && self.crashes(inp) { Some(inp.now) } else { self.failed_time })
        &&& post.head == self.head_after(inp)
        &&& post.body@ == self.body_after(inp)
        &&& self.eats(inp) ==> free_cells(post.head, self.moved_body(inp)).contains(post.flower)
        &&& !self.eats(inp) ==> post.flower == self.flower
        &&& post.audio_id == self.audio_id
        &&& post.patterns@ == self.patterns@
        &&& post.step == self.step
        &&& post.key_time == self.key_time
    }

    /// Head, every body segment and the flower lie on the map.
    pub open spec fn on_board(&self) -> bool {
        &&& in_map(self.head)
        &&& forall|i: int| 0 <= i < self.body@.len() ==> in_map(#[trigger] self.body@[i])
        &&& in_map(self.flower)
    }

    /// The frame can be played: no count of points, beats, cells or
    /// nanoseconds leaves its range, a beat shows two patterns of a full
    /// segment each within the level's patterns, and a meal leaves a free
    /// cell for the next flower.
    pub open spec fn frame_defined(&self, inp: FrameInput) -> bool {
        &&& self.key_penalty(inp) ==> self.score >= i32::MIN + KEY_PENALTY
        &&& self.beat_advances(inp) ==> {
            &&& self.base_offset(inp) < i32::MAX
            &&& self.segment(inp) < self.patterns@.len()
            &&& self.patterns@[self.segment(inp)]@.len() >= BEATS_PER_SEGMENT
            &&& self.patterns@[self.next_segment(inp)]@.len() >= BEATS_PER_SEGMENT
            &&& self.move_beat(inp) ==> inp.time + self.key_time <= u64::MAX
        }
        &&& self.move_due(inp) ==> {
            &&& i32::MIN <= self.next_column(inp) <= i32::MAX
            &&& i32::MIN <= self.next_row(inp) <= i32::MAX
        }
        &&& self.eats(inp) ==> self.score_after_key(inp) + FLOWER_REWARD <= i32::MAX
        &&& self.eats(inp) ==> free_cells(self.next_head(inp), self.moved_body(inp)).len() > 0
    }
}


/// `a - b`, or zero when `b` is later (as a later instant taken from an
/// earlier one gives no time).
pub fn since(a: u64, b: u64) -> (r: u64)
    ensures
        r == elapsed(a, b),
{
    if a >= b {
        a - b
    } else {
        0
    }
}

/// The direction after the key.
pub fn turn(dir: Pos, key: Option<KeyState>) -> (r: Pos)
    ensures
        r == turned(dir, key),
{
    match key {
        Some(k) => {
            if k.key_code == KEY_LEFT {
                (-1, 0)
            } else if k.key_code == KEY_UP {
                (0, -1)
            } else if k.key_code == KEY_RIGHT {
                (1, 0)
            } else if k.key_code == KEY_DOWN {
                (0, 1)
            } else {
                dir
            }
        },
        None => dir,
    }
}

/// Which of the three pictures of the snake's eyes shows for an eye frame:
/// the second for frame 1, the third for frame 3, the first otherwise.
pub fn eye_picture(eye_frame: i32) -> (r: usize)
    ensures
        r == (if eye_frame == 1 {
            1usize
        } else if eye_frame == 3 {
            2usize
        } else {
            0usize
        }),
{
    if eye_frame == 1 {
        1
    } else if eye_frame == 3 {
        2
    } else {
        0
    }
}

/// The marks of two segments: the first eight of each, one after the other.
fn marks_of(patterns: &Vec<&'static str>, seg: usize, next: usize) -> (r: Vec<char>)
    requires
        seg < patterns@.len(),
        next < patterns@.len(),
        patterns@[seg as int]@.len() >= BEATS_PER_SEGMENT,
        patterns@[next as int]@.len() >= BEATS_PER_SEGMENT,
    ensures
        r@ == patterns@[seg as int]@.take(BEATS_PER_SEGMENT as int) + patterns@[next as int]@.take(
            BEATS_PER_SEGMENT as int,
        ),
{
    let a: &str = patterns[seg];
    let b: &str = patterns[next];
    let mut r: Vec<char> = Vec::new();
    let mut i: usize = 0;
    while i < BEATS_PER_SEGMENT
        invariant
            i <= BEATS_PER_SEGMENT,
            a@.len() >= BEATS_PER_SEGMENT,
            r@ == a@.take(i as int),
        decreases BEATS_PER_SEGMENT - i,
    {
        let c = a.get_char(i);
        r.push(c);
        i += 1;
        assert(r@ =~= a@.take(i as int));
    }
    let mut j: usize = 0;
    while j < BEATS_PER_SEGMENT
        invariant
            j <= BEATS_PER_SEGMENT,
            b@.len() >= BEATS_PER_SEGMENT,
            r@ == a@.take(BEATS_PER_SEGMENT as int) + b@.take(j as int),
        decreases BEATS_PER_SEGMENT - j,
    {
        let c = b.get_char(j);
        r.push(c);
        j += 1;
        assert(r@ =~= a@.take(BEATS_PER_SEGMENT as int) + b@.take(j as int));
    }
    r
}

impl Game {
    /// Starts a level: the snake on its start cell, heading right, its body
    /// two segments on the same cell, a flower on a free cell, no key waiting,
    /// and the music clock two beats before a slack.
    pub fn new(states: LevelStates, key: KeyState, now: u64) -> (g: Game)
        requires
            states.wf(),
        ensures
            g.inv(),
            g.head == states.position,
            g.body@ == seq![states.position, states.position],
            free_cells(g.head, g.body@).contains(g.flower),
            in_map(g.flower) && g.flower != g.head && !g.body@.contains(g.flower),
            in_map(states.position) ==> g.on_board(),
            g.direction == (1i32, 0i32),
            g.score == START_SCORE,
            g.current_key == key,
            g.effective_key is None,
            g.effective_key_time == now,
            g.failed_time is None,
            g.can_move_time is None,
            g.green_beat == 0,
            g.eye_frame == 0,
            g.beats_offset == -1,
            g.step == beat_length(states.beats_per_min),
            g.prev_instant == first_instant(g.step as int),
            g.key_time == key_window(g.step as int),
            g.audio_id == states.audio_id,
            g.patterns@ == states.patterns@,
    {
        let bpm = states.beats_per_min as i64;
        let step: i64 = NANOS_PER_MINUTE / bpm;
        assert(0 < step <= NANOS_PER_MINUTE) by (nonlinear_arith)
            requires
                step == NANOS_PER_MINUTE / bpm,
                0 < bpm <= u32::MAX,
        ;
        let margin: i64 = step - KEY_MARGIN;
        let key_time: u64 = if margin <= 0 {
            0
        } else if margin > u32::MAX as i64 {
            u32::MAX as u64
        } else {
            margin as u64
        };
        let head = states.position;
        let mut body: Vec<Pos> = Vec::new();
        body.push(head);
        body.push(head);
        let mut rng = thread_rng();
        proof {
            let k: int = if cell_at(0) == head { 1 } else { 0 };
            lemma_free_cell_exists(head, body@, k);
        }
        let flower = choose_flower(&mut rng, head, &body);
        proof {
            lemma_free_cell_is_clear(head, body@, flower);
        }
        Game {
            head,
            body,
            flower,
            direction: (1, 0),
            score: START_SCORE,
            current_key: key,
            effective_key: None,
            effective_key_time: now,
            failed_time: None,
            can_move_time: None,
            green_beat: 0,
            eye_frame: 0,
            prev_instant: FIRST_BEAT_SLACK - 2 * step,
            beats_offset: -1,
            audio_id: states.audio_id,
            patterns: states.patterns,
            step,
            key_time,
            rng,
        }
    }

    /// Reads the key: whether a waiting key press is dropped, the waiting
    /// key press after it, and when that counts from.
    fn read_key(&self, inp: FrameInput) -> (r: (bool, Option<KeyState>, u64))
        ensures
            r.0 == self.key_penalty(inp),
            r.1 == self.key_after(inp),
            r.2 == self.key_time_after(inp),
    {
        let pressed = inp.key.is_down && !(inp.key == self.current_key);
        let expired = !pressed && since(inp.time, self.effective_key_time) > self.key_time;
        let penalty = self.effective_key.is_some() && (pressed || expired);
        let key_after = if pressed {
            Some(inp.key)
        } else if expired {
            None
        } else {
            self.effective_key
        };
        let key_time_after = if pressed || expired {
            inp.time
        } else {
            self.effective_key_time
        };
        (penalty, key_after, key_time_after)
    }

    /// Reads the music clock: the last beat and the beat count once a
    /// rewind is taken into account, and whether a beat has passed.
    fn read_clock(&self, inp: FrameInput) -> (r: (i64, i32, bool))
        requires
            self.inv(),
        ensures
            r.0 == self.base_instant(inp),
            r.1 == self.base_offset(inp),
            r.2 == self.beat_advances(inp),
    {
        let rewinds = inp.audio_time < self.prev_instant;
        let base_instant: i64 = if rewinds {
            FIRST_BEAT_SLACK - 2 * self.step
        } else {
            self.prev_instant
        };
        let base_offset: i32 = if rewinds {
            -1
        } else {
            self.beats_offset
        };
        let advances = (inp.audio_time as i128) - (base_instant as i128) >= (self.step as i128);
        (base_instant, base_offset, advances)
    }

    /// Plays one frame. In order: the key is read (a waiting key press that
    /// is replaced or runs out costs points); the music clock is read (a beat
    /// that passes shows the marks, moves the eyes, and on a move beat lets the
    /// snake step once the key window has run); a crashed snake only waits for
    /// the end of the level; otherwise, if its step is due, the snake turns
    /// by the waiting key and steps: off the map or into its body it crashes,
    /// else it advances, and onto the flower it grows, wins points, and a new
    /// flower grows on a free cell.
    pub fn frame(&mut self, inp: FrameInput) -> (out: FrameOutput)
        requires
            old(self).inv(),
            old(self).frame_defined(inp),
        ensures
            final(self).inv(),
            old(self).steps_to(inp, *final(self)),
            old(self).eats(inp) ==> in_map(final(self).flower),
            old(self).eats(inp) ==> final(self).flower != final(self).head,
            old(self).eats(inp) ==> !final(self).body@.contains(final(self).flower),
            old(self).on_board() ==> final(self).on_board(),
            // a key event that is down and differs from the last one is a new press
            (inp.key.is_down && inp.key != old(self).current_key) ==> final(self).effective_key_time
                == inp.time,
            (inp.key.is_down && inp.key != old(self).current_key && !out.moved && !out.crashed)
                ==> final(self).effective_key == Some(inp.key),
            (inp.key.is_down && inp.key != old(self).current_key && (out.moved || out.crashed))
                ==> final(self).direction == turned(old(self).direction, Some(inp.key)),
            (inp.key.is_down && inp.key != old(self).current_key && old(self).effective_key is Some)
                ==> final(self).score == old(self).score - KEY_PENALTY + (if out.ate {
                FLOWER_REWARD as int
            } else {
                0int
            }),
            // a beat shows its segment and the next, and opens a step on an x
            out.beat matches Some(b) ==> final(self).beats_offset >= 0 && b.marks@.len() == 16
                && b.highlight == final(self).beats_offset % 8,
            out.beat matches Some(b) ==> forall|i: int|
                0 <= i < 8 ==> #[trigger] b.marks@[i] == old(self).patterns@[final(self).beats_offset
                    / 8]@[i],
            out.beat matches Some(b) ==> forall|i: int|
                8 <= i < 16 ==> #[trigger] b.marks@[i] == old(self).patterns@[if final(self).beats_offset
                    / 8 == old(self).patterns@.len() - 1 {
                    0
                } else {
                    final(self).beats_offset / 8 + 1
                }]@[i - 8],
            (out.beat is Some && !out.moved && !out.crashed && old(self).patterns@[final(self).beats_offset
                / 8]@[(final(self).beats_offset % 8) as int] == 'x') ==> final(self).can_move_time == Some(
                (inp.time + old(self).key_time) as u64,
            ),
            (out.beat is Some && !out.moved && !out.crashed && old(self).patterns@[final(self).beats_offset
                / 8]@[(final(self).beats_offset % 8) as int] != 'x') ==> final(self).can_move_time
                == old(self).can_move_time,
            (out.beat is None && !out.moved && !out.crashed) ==> final(self).can_move_time
                == old(self).can_move_time,
            // the level ends only more than the delay after an earlier crash
            out.finished <==> (old(self).failed_time matches Some(f) && elapsed(inp.time, f)
                > GAME_OVER_DELAY),
            // the new flower is the free cell the random draw picked
            out.ate <==> out.flower_pick is Some,
            out.flower_pick matches Some(k) ==> k < free_cells(final(self).head, shifted_body(old(self).body@, old(self).head)).len(),
            out.flower_pick matches Some(k) ==> final(self).flower == free_cells(final(self).head, shifted_body(old(self).body@, old(self).head))[k as int],
            out.score_tone == (if old(self).eats(inp) {
                Some(ScoreTone::Reward)
            } else if old(self).key_penalty(inp) {
                Some(ScoreTone::Penalty)
            } else {
                None
            }),
            out.beat is Some <==> old(self).beat_advances(inp),
            out.beat matches Some(b) ==> {
                &&& b.marks@ == old(self).beat_marks(inp)
                &&& b.highlight == old(self).highlight(inp)
                &&& b.eye_frame == old(self).eye_after(inp)
            },
            out.crashed == (old(self).move_due(inp) && old(self).crashes(inp)),
            out.moved == old(self).advances(inp),
            out.ate == old(self).eats(inp),
            out.finished == old(self).finishes(inp),
    {
        let ghost pre = *self;
        proof {
            if !pre.eats(inp) {
                lemma_flower_stays_clear(pre, inp);
            }
        }
        // the key
        let (penalty, key_after, key_time_after) = self.read_key(inp);
        let score_after_key: i32 = if penalty {
            self.score - KEY_PENALTY
        } else {
            self.score
        };
        // the music clock
        let (base_instant, base_offset, beat_passes) = self.read_clock(inp);
        let mut instant = base_instant;
        let mut offset = base_offset;
        let mut eye = self.eye_frame;
        let mut green = self.green_beat;
        let mut can_move = self.can_move_time;
        let mut beat: Option<BeatUpdate> = None;
        if beat_passes {
            instant = base_instant + self.step;
            offset = base_offset + 1;
            let seg = (offset / 8) as usize;
            let next = if seg == self.patterns.len() - 1 {
                0
            } else {
                seg + 1
            };
            let hi = (offset % 8) as usize;
            assert(seg == pre.segment(inp));
            assert(next == pre.next_segment(inp));
            assert(hi == pre.highlight(inp));
            let marks = marks_of(&self.patterns, seg, next);
            assert(marks@[hi as int] == pre.patterns@[seg as int]@[hi as int]);
            if marks[hi] == 'x' {
                can_move = Some(inp.time + self.key_time);
                green = hi as i32;
            }
            eye = (self.eye_frame + 1) % 4;
            beat = Some(BeatUpdate { marks, highlight: hi, eye_frame: eye });
        }
        self.current_key = inp.key;
        self.score = score_after_key;
        self.effective_key = key_after;
        self.effective_key_time = key_time_after;
        self.prev_instant = instant;
        self.beats_offset = offset;
        self.eye_frame = eye;
        self.green_beat = green;
        self.can_move_time = can_move;
        let score_tone = if penalty {
            Some(ScoreTone::Penalty)
        } else {
            None
        };
        // a crashed snake waits for the end
        match self.failed_time {
            Some(f) => {
                return FrameOutput {
                    score_tone,
                    beat,
                    crashed: false,
                    moved: false,
                    ate: false,
                    finished: since(inp.time, f) > GAME_OVER_DELAY,
                    flower_pick: None,
                };
            },
            None => {},
        }
        let due = match can_move {
            Some(c) => c <= inp.time,
            None => false,
        };
        if !due {
            return FrameOutput { score_tone, beat, crashed: false, moved: false, ate: false, finished: false, flower_pick: None };
        }
        // the step
        self.can_move_time = None;
        let dir = turn(self.direction, key_after);
        self.effective_key = None;
        self.direction = dir;
        let next_head: Pos = (self.head.0 + dir.0, self.head.1 + dir.1);
        assert(next_head == pre.next_head(inp));
        let crash = body_hit(&self.body, next_head) || !on_map(next_head);
        if crash {
            self.failed_time = Some(inp.now);
            return FrameOutput { score_tone, beat, crashed: true, moved: false, ate: false, finished: false, flower_pick: None };
        }
        let old_head = self.head;
        shift_body(&mut self.body, old_head);
        self.head = next_head;
        let eat = same_pos(self.flower, next_head);
        if !eat {
            return FrameOutput { score_tone, beat, crashed: false, moved: true, ate: false, finished: false, flower_pick: None };
        }
        let (pick, flower) = draw_free_cell(&mut self.rng, next_head, &self.body);
        self.flower = flower;
        let tail = self.body[self.body.len() - 1];
        self.body.push(tail);
        self.score = self.score + FLOWER_REWARD;
        proof {
            lemma_new_flower_clear(pre, inp, flower);
        }
        FrameOutput {
            score_tone: Some(ScoreTone::Reward),
            beat,
            crashed: false,
            moved: true,
            ate: true,
            finished: false,
            flower_pick: Some(pick),
        }
    }

    /// Whether the frame can be played (see `frame_defined`); a frame that
    /// cannot would overflow a count or run past the patterns.
    pub fn frame_is_defined(&self, inp: FrameInput) -> (r: bool)
        requires
            self.inv(),
        ensures
            r == self.frame_defined(inp),
    {
        let (penalty, key_after, _key_time_after) = self.read_key(inp);
        if penalty && self.score < i32::MIN + KEY_PENALTY {
            return false;
        }
        let score_after_key: i64 = if penalty {
            self.score as i64 - KEY_PENALTY as i64
        } else {
            self.score as i64
        };
        let (_base_instant, base_offset, beat_passes) = self.read_clock(inp);
        let mut can_move = self.can_move_time;
        if beat_passes {
            if base_offset == i32::MAX {
                return false;
            }
            let offset = base_offset + 1;
            let seg = (offset / 8) as usize;
            if seg >= self.patterns.len() {
                return false;
            }
            let next = if seg == self.patterns.len() - 1 {
                0
            } else {
                seg + 1
            };
            if self.patterns[seg].unicode_len() < BEATS_PER_SEGMENT || self.patterns[next].unicode_len()
                < BEATS_PER_SEGMENT {
                return false;
            }
            let hi = (offset % 8) as usize;
            assert(seg == self.segment(inp));
            assert(next == self.next_segment(inp));
            assert(hi == self.highlight(inp));
            let mark = self.patterns[seg].get_char(hi);
            if mark == 'x' {
                if inp.time > u64::MAX - self.key_time {
                    return false;
                }
                can_move = Some(inp.time + self.key_time);
            }
        }
        let due = self.failed_time.is_none() && match can_move {
            Some(c) => c <= inp.time,
            None => false,
        };
        if !due {
            return true;
        }
        let dir = turn(self.direction, key_after);
        let col: i64 = self.head.0 as i64 + dir.0 as i64;
        let row: i64 = self.head.1 as i64 + dir.1 as i64;
        if col < i32::MIN as i64 || col > i32::MAX as i64 || row < i32::MIN as i64 || row
            > i32::MAX as i64 {
            return false;
        }
        let next_head: Pos = (col as i32, row as i32);
        assert(next_head == self.next_head(inp));
        let crash = body_hit(&self.body, next_head) || !on_map(next_head);
        let eat = !crash && same_pos(self.flower, next_head);
        if !eat {
            return true;
        }
        if score_after_key + FLOWER_REWARD as i64 > i32::MAX as i64 {
            return false;
        }
        let moved = shifted_copy(&self.body, self.head);
        let free = free_cells_of(next_head, &moved);
        free.len() > 0
    }
}

} // verus!

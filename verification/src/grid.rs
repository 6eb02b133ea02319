//! The map: cells, the snake's body, collisions and where a flower may grow.

use crate::random::random_below;
use vstd::prelude::*;

verus! {

/// Number of columns of the map.
pub const MAP_C: i32 = 12;

/// Number of rows of the map.
pub const MAP_R: i32 = 8;

/// Side of a map cell, in pixels.
pub const MAP_CELL_SIZE: i32 = 60;

/// Width of the border drawn around the map, in pixels.
pub const MAP_BORDER_W: i32 = 20;

/// Height of the border drawn around the map, in pixels.
pub const MAP_BORDER_H: i32 = 20;

/// Width of the screen, in pixels.
pub const SCREEN_W: i32 = 1280;

/// Height of the screen, in pixels.
pub const SCREEN_H: i32 = 720;

/// Height of the area below the map that shows the beat hints.
pub const HINT_AREA_H: i32 = 100;

/// A cell: column, then row.
pub type Pos = (i32, i32);

/// The cell lies on the map.
pub open spec fn in_map(p: Pos) -> bool {
    0 <= p.0 < MAP_C && 0 <= p.1 < MAP_R
}

/// `p` is one of the body segments that stay in place while the snake
/// advances: every segment but the last, which moves away in that step.
pub open spec fn hits_body(body: Seq<Pos>, p: Pos) -> bool {
    exists|i: int| 0 <= i < body.len() - 1 && body[i] == p
}

/// The body after the head left `from`: every segment takes the place of the
/// one before it, the first takes `from`, and the last place is given up.
pub open spec fn shifted_body(body: Seq<Pos>, from: Pos) -> Seq<Pos> {
    if body.len() == 0 {
        body
    } else {
        seq![from] + body.take(body.len() - 1)
    }
}

/// The `k`-th cell of the map in row-major order.
pub open spec fn cell_at(k: int) -> Pos {
    ((k % (MAP_C as int)) as i32, (k / (MAP_C as int)) as i32)
}

/// Every cell of the map, in row-major order.
pub open spec fn all_cells() -> Seq<Pos> {
    Seq::new((MAP_C * MAP_R) as nat, |k: int| cell_at(k))
}

/// Neither the head nor a body segment covers `p`.
pub open spec fn is_free(p: Pos, head: Pos, body: Seq<Pos>) -> bool {
    p != head && !body.contains(p)
}

/// The predicate `is_free` for a given snake.
pub open spec fn free_pred(head: Pos, body: Seq<Pos>) -> spec_fn(Pos) -> bool {
    |p: Pos| is_free(p, head, body)
}

/// The cells of the map that the snake leaves free, in row-major order.
pub open spec fn free_cells(head: Pos, body: Seq<Pos>) -> Seq<Pos> {
    all_cells().filter(free_pred(head, body))
}

/// The two cells are the same.
pub fn same_pos(a: Pos, b: Pos) -> (r: bool)
    ensures
        r == (a == b),
{
    a.0 == b.0 && a.1 == b.1
}

/// The cell lies on the map.
pub fn on_map(p: Pos) -> (r: bool)
    ensures
        r == in_map(p),
{
    0 <= p.0 && p.0 < MAP_C && 0 <= p.1 && p.1 < MAP_R
}

/// Some segment of the body covers `p`.
pub fn body_contains(body: &Vec<Pos>, p: Pos) -> (r: bool)
    ensures
        r == body@.contains(p),
{
    let mut i: usize = 0;
    while i < body.len()
        invariant
            i <= body.len(),
            forall|j: int| 0 <= j < i ==> body@[j] != p,
        decreases body.len() - i,
    {
        if same_pos(body[i], p) {
            assert(body@[i as int] == p);
            return true;
        }
        i += 1;
    }
    false
}

/// The head would run into its body when it enters `p`: `p` is covered by a
/// segment other than the last (the tail moves on in the same step).
pub fn body_hit(body: &Vec<Pos>, p: Pos) -> (r: bool)
    requires
        body.len() >= 1,
    ensures
        r == hits_body(body@, p),
{
    let n = body.len() - 1;
    let mut i: usize = 0;
    while i < n
        invariant
            n == body.len() - 1,
            i <= n,
            forall|j: int| 0 <= j < i ==> body@[j] != p,
        decreases n - i,
    {
        if same_pos(body[i], p) {
            assert(body@[i as int] == p);
            return true;
        }
        i += 1;
    }
    false
}

/// Moves every body segment one place up the body: the first takes `from`
/// (where the head was), each other takes the place of the one before it.
pub fn shift_body(body: &mut Vec<Pos>, from: Pos)
    ensures
        final(body)@ == shifted_body(old(body)@, from),
{
    let ghost b0 = body@;
    let n = body.len();
    let mut cur = from;
    let mut i: usize = 0;
    while i < n
        invariant
            n == body.len(),
            b0.len() == n,
            i <= n,
            forall|j: int| 0 <= j < i ==> body@[j] == (if j == 0 { from } else { b0[j - 1] }),
            forall|j: int| i <= j < n ==> body@[j] == b0[j],
            cur == (if i == 0 { from } else { b0[i - 1] }),
        decreases n - i,
    {
        let next = body[i];
        body.set(i, cur);
        cur = next;
        i += 1;
    }
    proof {
        if n > 0 {
            assert(body@ =~= shifted_body(b0, from));
        } else {
            assert(body@ =~= b0);
        }
    }
}

/// The free cells of the map, in row-major order.
pub fn free_cells_of(head: Pos, body: &Vec<Pos>) -> (r: Vec<Pos>)
    ensures
        r@ == free_cells(head, body@),
{
    let ghost pred = free_pred(head, body@);
    let mut r: Vec<Pos> = Vec::new();
    let mut k: i32 = 0;
    while k < MAP_C * MAP_R
        invariant
            0 <= k <= MAP_C * MAP_R,
            pred == free_pred(head, body@),
            r@ == all_cells().take(k as int).filter(pred),
        decreases MAP_C * MAP_R - k,
    {
        let p: Pos = (k % MAP_C, k / MAP_C);
        let free = !same_pos(p, head) && !body_contains(body, p);
        proof {
            assert(p == cell_at(k as int));
            assert(all_cells().take(k + 1) =~= all_cells().take(k as int).push(p));
            all_cells().take(k as int).lemma_filter_push(p, pred);
        }
        if free {
            r.push(p);
        }
        k += 1;
    }
    proof {
        assert(all_cells().take(MAP_C * MAP_R) =~= all_cells());
    }
    r
}

/// A free cell lies on the map and is covered by neither head nor body.
pub proof fn lemma_free_cell_is_clear(head: Pos, body: Seq<Pos>, p: Pos)
    requires
        free_cells(head, body).contains(p),
    ensures
        in_map(p),
        is_free(p, head, body),
{
    let f = free_cells(head, body);
    let i = choose|i: int| 0 <= i < f.len() && f[i] == p;
    all_cells().lemma_filter_pred(free_pred(head, body), i);
    all_cells().lemma_filter_contains_rev(free_pred(head, body), p);
    let k = choose|k: int| 0 <= k < all_cells().len() && all_cells()[k] == p;
    assert(all_cells()[k] == cell_at(k));
}

/// Where the flower grows when the choice among the free cells falls on
/// `pick`: the `pick`-th free cell, or none when there are fewer.
pub fn flower_for_pick(head: Pos, body: &Vec<Pos>, pick: usize) -> (r: Option<Pos>)
    ensures
        r == (if pick < free_cells(head, body@).len() {
            Some(free_cells(head, body@)[pick as int])
        } else {
            None::<Pos>
        }),
{
    let free = free_cells_of(head, body);
    if pick < free.len() {
        Some(free[pick])
    } else {
        None
    }
}

/// A free cell, and hence a map with room left, has free cells.
pub proof fn lemma_free_cell_exists(head: Pos, body: Seq<Pos>, k: int)
    requires
        0 <= k < MAP_C * MAP_R,
        is_free(cell_at(k), head, body),
    ensures
        free_cells(head, body).contains(cell_at(k)),
        free_cells(head, body).len() > 0,
{
    assert(all_cells()[k] == cell_at(k));
    all_cells().lemma_filter_contains(free_pred(head, body), k);
}

/// The body after the head left `from`, as a new vector.
pub fn shifted_copy(body: &Vec<Pos>, from: Pos) -> (r: Vec<Pos>)
    ensures
        r@ == shifted_body(body@, from),
{
    let mut r: Vec<Pos> = Vec::new();
    let n = body.len();
    if n == 0 {
        assert(r@ =~= shifted_body(body@, from));
        return r;
    }
    r.push(from);
    let mut i: usize = 0;
    while i < n - 1
        invariant
            n == body.len(),
            n > 0,
            i <= n - 1,
            r@ == seq![from] + body@.take(i as int),
        decreases n - 1 - i,
    {
        r.push(body[i]);
        i += 1;
        assert(r@ =~= seq![from] + body@.take(i as int));
    }
    r
}

/// Draws one of the free cells at random (there must be one): the index
/// drawn, which `rand` picks uniformly among the free cells' indices, and the
/// free cell at that index.
pub fn draw_free_cell(rng: &mut rand::rngs::ThreadRng, head: Pos, body: &Vec<Pos>) -> (r: (
    usize,
    Pos,
))
    requires
        free_cells(head, body@).len() > 0,
    ensures
        r.0 < free_cells(head, body@).len(),
        r.1 == free_cells(head, body@)[r.0 as int],
{
    let free = free_cells_of(head, body);
    let k = random_below(rng, free.len());
    let p = flower_for_pick(head, body, k).unwrap();
    (k, p)
}

/// Grows a flower on a cell chosen uniformly at random among the free
/// cells; there must be one.
pub fn choose_flower(rng: &mut rand::rngs::ThreadRng, head: Pos, body: &Vec<Pos>) -> (r: Pos)
    requires
        free_cells(head, body@).len() > 0,
    ensures
        free_cells(head, body@).contains(r),
{
    let (k, p) = draw_free_cell(rng, head, body);
    assert(free_cells(head, body@)[k as int] == p);
    p
}

/// Where the parts of a level sit on the screen, in pixels.
pub struct MapLayout {
    /// Left edge of the map.
    pub map_x: i32,
    /// Top edge of the map.
    pub map_y: i32,
    /// Width of the map.
    pub map_w: i32,
    /// Height of the map.
    pub map_h: i32,
    /// Top edge of the beat hints, below the map's border.
    pub hint_top: i32,
    /// Left edge of the score.
    pub score_left: i32,
    /// Top edge of the score.
    pub score_top: i32,
    /// Left edge of the map's border.
    pub border_x: i32,
    /// Top edge of the map's border.
    pub border_y: i32,
    /// Width of the map's border, the map included.
    pub border_w: i32,
    /// Height of the map's border, the map included.
    pub border_h: i32,
}

/// The map centred on the screen, above the area of the beat hints, inside
/// its border; the hints below the border, the score beside them.
pub fn map_layout() -> (r: MapLayout)
    ensures
        r.map_w == MAP_C * MAP_CELL_SIZE,
        r.map_h == MAP_R * MAP_CELL_SIZE,
        r.map_x == (SCREEN_W - MAP_BORDER_W * 2 - r.map_w) / 2,
        r.map_y == (SCREEN_H - MAP_BORDER_H * 2 - r.map_h - HINT_AREA_H) / 2,
        r.hint_top == r.map_y + r.map_h + MAP_BORDER_H * 2,
        r.score_left == r.map_x + 660,
        r.score_top == r.map_y + r.map_h + MAP_BORDER_H * 2 + 10,
        r.border_x == r.map_x - MAP_BORDER_W,
        r.border_y == r.map_y - MAP_BORDER_H,
        r.border_w == r.map_w + MAP_BORDER_W * 2,
        r.border_h == r.map_h + MAP_BORDER_H * 2,
{
    let map_w = MAP_C * MAP_CELL_SIZE;
    let map_h = MAP_R * MAP_CELL_SIZE;
    let map_x = (SCREEN_W - MAP_BORDER_W * 2 - map_w) / 2;
    let map_y = (SCREEN_H - MAP_BORDER_H * 2 - map_h - HINT_AREA_H) / 2;
    MapLayout {
        map_x,
        map_y,
        map_w,
        map_h,
        hint_top: map_y + map_h + MAP_BORDER_H * 2,
        score_left: map_x + 660,
        score_top: map_y + map_h + MAP_BORDER_H * 2 + 10,
        border_x: map_x - MAP_BORDER_W,
        border_y: map_y - MAP_BORDER_H,
        border_w: map_w + MAP_BORDER_W * 2,
        border_h: map_h + MAP_BORDER_H * 2,
    }
}

/// The offset, in pixels, of a cell from the map's top left corner.
pub fn cell_offset(p: Pos) -> (r: (i32, i32))
    requires
        i32::MIN <= p.0 * MAP_CELL_SIZE <= i32::MAX,
        i32::MIN <= p.1 * MAP_CELL_SIZE <= i32::MAX,
    ensures
        r.0 == p.0 * MAP_CELL_SIZE,
        r.1 == p.1 * MAP_CELL_SIZE,
{
    (p.0 * MAP_CELL_SIZE, p.1 * MAP_CELL_SIZE)
}

} // verus!

//! Procedural level generation: seeded rejection-sampled room placement
//! and width-2 corridor carving.
//!
//! The generator is specified functionally: the resulting tile grid equals
//! a spec-level function of the width, height and seed alone, which is
//! what makes generation byte-for-byte reproducible for a given seed.

use vstd::prelude::*;

use crate::gamemap::{lemma_area_small, lemma_idx_in_range, GameMap};
use crate::rng::{rng_out, rng_step, SeededRng};
use crate::tile::Tile;

verus! {

/// A candidate room: an inclusive rectangle of cells.
#[derive(Clone, Copy, Debug, PartialEq, Eq, Structural)]
pub struct Rect {
    pub x1: usize,
    pub y1: usize,
    pub x2: usize,
    pub y2: usize,
}

/// The spec-level shadow of a rectangle, over mathematical integers.
pub struct RectI {
    pub x1: int,
    pub y1: int,
    pub x2: int,
    pub y2: int,
}

/// The spec-level value of an executable rectangle.
pub open spec fn rect_i(r: Rect) -> RectI {
    RectI { x1: r.x1 as int, y1: r.y1 as int, x2: r.x2 as int, y2: r.y2 as int }
}

/// Whether two inclusive rectangles share at least one cell.
pub open spec fn spec_intersects(a: RectI, b: RectI) -> bool {
    a.x1 <= b.x2 && a.x2 >= b.x1 && a.y1 <= b.y2 && a.y2 >= b.y1
}

/// `r` grown by the two-tile clearance buffer, clipped to the grid.
pub open spec fn spec_buffered(r: RectI, width: int, height: int) -> RectI {
    RectI {
        x1: vstd::math::max(r.x1 - 2, 0),
        y1: vstd::math::max(r.y1 - 2, 0),
        x2: vstd::math::min(r.x2 + 2, width - 1),
        y2: vstd::math::min(r.y2 + 2, height - 1),
    }
}

/// The center cell of a rectangle.
pub open spec fn spec_center(r: RectI) -> (int, int) {
    ((r.x1 + r.x2) / 2, (r.y1 + r.y2) / 2)
}

impl Rect {
    /// The rectangle lies on a `width` by `height` grid.
    pub open spec fn in_grid(&self, width: int, height: int) -> bool {
        &&& self.x1 <= self.x2 < width
        &&& self.y1 <= self.y2 < height
    }

    /// The center cell of the rectangle.
    pub fn center(&self) -> (r: (usize, usize))
        requires
            self.x1 <= self.x2 <= 10000,
            self.y1 <= self.y2 <= 10000,
        ensures
            (r.0 as int, r.1 as int) == spec_center(rect_i(*self)),
    {
        ((self.x1 + self.x2) / 2, (self.y1 + self.y2) / 2)
    }

    /// Whether this rectangle shares a cell with `other`.
    pub fn intersects(&self, other: &Rect) -> (r: bool)
        ensures
            r == spec_intersects(rect_i(*self), rect_i(*other)),
    {
        self.x1 <= other.x2 && self.x2 >= other.x1 && self.y1 <= other.y2 && self.y2 >= other.y1
    }
}

/// Whether linear cell `i` of a `width`-wide grid lies in rectangle `r`.
pub open spec fn in_rect(i: int, width: int, r: RectI) -> bool {
    &&& r.x1 <= i % width <= r.x2
    &&& r.y1 <= i / width <= r.y2
}

/// The grid with rectangle `r` carved to floor.
pub open spec fn carve_rect_spec(tiles: Seq<Tile>, width: int, r: RectI) -> Seq<Tile> {
    Seq::new(tiles.len(), |i: int| if in_rect(i, width, r) { Tile::Floor } else { tiles[i] })
}

/// Whether linear cell `i` lies on a two-tile-wide horizontal corridor at
/// row `y` spanning columns `x1` to `x2`.
pub open spec fn in_h_corridor(i: int, width: int, height: int, x1: int, x2: int, y: int) -> bool {
    &&& vstd::math::min(x1, x2) <= i % width <= vstd::math::max(x1, x2)
    &&& (i / width == y || (i / width == y + 1 && y + 1 < height))
}

/// The grid with a two-tile-wide horizontal corridor carved to floor.
pub open spec fn carve_h_spec(
    tiles: Seq<Tile>,
    width: int,
    height: int,
    x1: int,
    x2: int,
    y: int,
) -> Seq<Tile> {
    Seq::new(
        tiles.len(),
        |i: int|
            if in_h_corridor(i, width, height, x1, x2, y) {
                Tile::Floor
            } else {
                tiles[i]
            },
    )
}

/// Whether linear cell `i` lies on a two-tile-wide vertical corridor at
/// column `x` spanning rows `y1` to `y2`.
pub open spec fn in_v_corridor(i: int, width: int, y1: int, y2: int, x: int) -> bool {
    &&& vstd::math::min(y1, y2) <= i / width <= vstd::math::max(y1, y2)
    &&& (i % width == x || (i % width == x + 1 && x + 1 < width))
}

/// The grid with a two-tile-wide vertical corridor carved to floor.
pub open spec fn carve_v_spec(
    tiles: Seq<Tile>,
    width: int,
    y1: int,
    y2: int,
    x: int,
) -> Seq<Tile> {
    Seq::new(
        tiles.len(),
        |i: int|
            if in_v_corridor(i, width, y1, y2, x) {
                Tile::Floor
            } else {
                tiles[i]
            },
    )
}

/// Cell `(x, y)` is the unique cell with linear index `y * width + x`.
pub proof fn lemma_cell_index(width: int, x: int, y: int, j: int)
    requires
        1 <= width,
        0 <= x < width,
        0 <= y,
        0 <= j,
    ensures
        (j == y * width + x) <==> (j % width == x && j / width == y),
{
    if j == y * width + x {
        vstd::arithmetic::div_mod::lemma_fundamental_div_mod_converse(j, width, y, x);
    }
    if j % width == x && j / width == y {
        vstd::arithmetic::div_mod::lemma_fundamental_div_mod(j, width);
        assert(width * (j / width) == (j / width) * width) by (nonlinear_arith);
    }
}

/// The grid with columns `x1 ..= x2` of row `y` carved to floor.
pub open spec fn fill_row_spec(tiles: Seq<Tile>, width: int, x1: int, x2: int, y: int) -> Seq<
    Tile,
> {
    Seq::new(
        tiles.len(),
        |i: int|
            if i / width == y && x1 <= i % width <= x2 {
                Tile::Floor
            } else {
                tiles[i]
            },
    )
}

/// The grid with rows `y1 ..= y2` of column `x` carved to floor.
pub open spec fn fill_col_spec(tiles: Seq<Tile>, width: int, y1: int, y2: int, x: int) -> Seq<
    Tile,
> {
    Seq::new(
        tiles.len(),
        |i: int|
            if i % width == x && y1 <= i / width <= y2 {
                Tile::Floor
            } else {
                tiles[i]
            },
    )
}

/// Carve one horizontal run of cells to floor.
fn fill_row(map: &mut GameMap, x1: usize, x2: usize, y: usize)
    requires
        old(map).wf(),
        x1 <= x2 < old(map).width,
        y < old(map).height,
    ensures
        final(map).wf(),
        final(map).width == old(map).width,
        final(map).height == old(map).height,
        final(map).tiles@ == fill_row_spec(
            old(map).tiles@,
            old(map).width as int,
            x1 as int,
            x2 as int,
            y as int,
        ),
{
    let ghost orig = *map;
    let ghost w = map.width as int;
    let mut x = x1;
    while x <= x2
        invariant
            map.wf(),
            map.width == orig.width,
            map.height == orig.height,
            w == map.width as int,
            x1 <= x <= x2 + 1,
            x2 < map.width,
            y < map.height,
            map.tiles@.len() == orig.tiles@.len(),
            forall|j: int|
                0 <= j < map.tiles@.len() ==> map.tiles@[j] == (if j / w == y && x1 <= j % w < x {
                    Tile::Floor
                } else {
                    orig.tiles@[j]
                }),
        decreases x2 + 1 - x,
    {
        map.set(x, y, Tile::Floor);
        proof {
            lemma_idx_in_range(x as int, y as int, w, map.height as int);
            assert forall|j: int| 0 <= j < map.tiles@.len() implies map.tiles@[j] == (if j / w == y
                && x1 <= j % w < x + 1 {
                Tile::Floor
            } else {
                orig.tiles@[j]
            }) by {
                lemma_cell_index(w, x as int, y as int, j);
            }
        }
        x = x + 1;
    }
    proof {
        assert(map.tiles@ =~= fill_row_spec(orig.tiles@, w, x1 as int, x2 as int, y as int));
    }
}

/// Carve one vertical run of cells to floor.
fn fill_col(map: &mut GameMap, y1: usize, y2: usize, x: usize)
    requires
        old(map).wf(),
        y1 <= y2 < old(map).height,
        x < old(map).width,
    ensures
        final(map).wf(),
        final(map).width == old(map).width,
        final(map).height == old(map).height,
        final(map).tiles@ == fill_col_spec(
            old(map).tiles@,
            old(map).width as int,
            y1 as int,
            y2 as int,
            x as int,
        ),
{
    let ghost orig = *map;
    let ghost w = map.width as int;
    let mut y = y1;
    while y <= y2
        invariant
            map.wf(),
            map.width == orig.width,
            map.height == orig.height,
            w == map.width as int,
            y1 <= y <= y2 + 1,
            y2 < map.height,
            x < map.width,
            map.tiles@.len() == orig.tiles@.len(),
            forall|j: int|
                0 <= j < map.tiles@.len() ==> map.tiles@[j] == (if j % w == x && y1 <= j / w < y {
                    Tile::Floor
                } else {
                    orig.tiles@[j]
                }),
        decreases y2 + 1 - y,
    {
        map.set(x, y, Tile::Floor);
        proof {
            lemma_idx_in_range(x as int, y as int, w, map.height as int);
            assert forall|j: int| 0 <= j < map.tiles@.len() implies map.tiles@[j] == (if j % w == x
                && y1 <= j / w < y + 1 {
                Tile::Floor
            } else {
                orig.tiles@[j]
            }) by {
                lemma_cell_index(w, x as int, y as int, j);
            }
        }
        y = y + 1;
    }
    proof {
        assert(map.tiles@ =~= fill_col_spec(orig.tiles@, w, y1 as int, y2 as int, x as int));
    }
}

/// The grid with the rows of `r` that lie strictly above `yy` carved to
/// floor: the part of a room carve done after processing rows below `yy`.
pub open spec fn carve_rect_upto(tiles: Seq<Tile>, width: int, r: RectI, yy: int) -> Seq<Tile> {
    Seq::new(
        tiles.len(),
        |i: int|
            if in_rect(i, width, r) && i / width < yy {
                Tile::Floor
            } else {
                tiles[i]
            },
    )
}

/// Filling one more row extends a partial room carve by one row.
proof fn lemma_carve_step(tiles: Seq<Tile>, w: int, r: RectI, yy: int)
    requires
        w >= 1,
        r.y1 <= yy <= r.y2,
    ensures
        fill_row_spec(carve_rect_upto(tiles, w, r, yy), w, r.x1, r.x2, yy) =~= carve_rect_upto(
            tiles,
            w,
            r,
            yy + 1,
        ),
{
}

/// Carve an in-grid rectangle to floor.
pub fn carve_room(map: &mut GameMap, r: Rect)
    requires
        old(map).wf(),
        r.in_grid(old(map).width as int, old(map).height as int),
    ensures
        final(map).wf(),
        final(map).width == old(map).width,
        final(map).height == old(map).height,
        final(map).tiles@ == carve_rect_spec(old(map).tiles@, old(map).width as int, rect_i(r)),
{
    let ghost orig = *map;
    let ghost w = map.width as int;
    let mut y = r.y1;
    proof {
        assert(map.tiles@ =~= carve_rect_upto(orig.tiles@, w, rect_i(r), y as int));
    }
    while y <= r.y2
        invariant
            map.wf(),
            map.width == orig.width,
            map.height == orig.height,
            w == map.width as int,
            r.in_grid(w, map.height as int),
            r.y1 <= y <= r.y2 + 1,
            map.tiles@ == carve_rect_upto(orig.tiles@, w, rect_i(r), y as int),
        decreases r.y2 + 1 - y,
    {
        fill_row(map, r.x1, r.x2, y);
        proof {
            lemma_carve_step(orig.tiles@, w, rect_i(r), y as int);
        }
        y = y + 1;
    }
    proof {
        assert(carve_rect_upto(orig.tiles@, w, rect_i(r), y as int) =~= carve_rect_spec(
            orig.tiles@,
            w,
            rect_i(r),
        ));
    }
}

/// Carve a two-tile-wide horizontal corridor (row `y`, and the row below
/// it when there is one) between columns `x1` and `x2`.
pub fn carve_h_corridor2(map: &mut GameMap, x1: usize, x2: usize, y: usize)
    requires
        old(map).wf(),
        x1 < old(map).width,
        x2 < old(map).width,
        y < old(map).height,
    ensures
        final(map).wf(),
        final(map).width == old(map).width,
        final(map).height == old(map).height,
        final(map).tiles@ == carve_h_spec(
            old(map).tiles@,
            old(map).width as int,
            old(map).height as int,
            x1 as int,
            x2 as int,
            y as int,
        ),
{
    let ghost orig = *map;
    let ghost w = map.width as int;
    let ghost h = map.height as int;
    let start = if x1 <= x2 {
        x1
    } else {
        x2
    };
    let end = if x1 <= x2 {
        x2
    } else {
        x1
    };
    fill_row(map, start, end, y);
    let ghost mid = map.tiles@;
    if y + 1 < map.height {
        fill_row(map, start, end, y + 1);
    }
    proof {
        assert forall|j: int| 0 <= j < map.tiles@.len() implies map.tiles@[j] == (
        if in_h_corridor(j, w, h, x1 as int, x2 as int, y as int) {
            Tile::Floor
        } else {
            orig.tiles@[j]
        }) by {
            assert(mid[j] == (if j / w == y && start <= j % w <= end {
                Tile::Floor
            } else {
                orig.tiles@[j]
            }));
        }
        assert(map.tiles@ =~= carve_h_spec(orig.tiles@, w, h, x1 as int, x2 as int, y as int));
    }
}

/// Carve a two-tile-wide vertical corridor (column `x`, and the column to
/// its right when there is one) between rows `y1` and `y2`.
pub fn carve_v_corridor2(map: &mut GameMap, y1: usize, y2: usize, x: usize)
    requires
        old(map).wf(),
        y1 < old(map).height,
        y2 < old(map).height,
        x < old(map).width,
    ensures
        final(map).wf(),
        final(map).width == old(map).width,
        final(map).height == old(map).height,
        final(map).tiles@ == carve_v_spec(
            old(map).tiles@,
            old(map).width as int,
            y1 as int,
            y2 as int,
            x as int,
        ),
{
    let ghost orig = *map;
    let ghost w = map.width as int;
    let start = if y1 <= y2 {
        y1
    } else {
        y2
    };
    let end = if y1 <= y2 {
        y2
    } else {
        y1
    };
    fill_col(map, start, end, x);
    let ghost mid = map.tiles@;
    if x + 1 < map.width {
        fill_col(map, start, end, x + 1);
    }
    proof {
        assert forall|j: int| 0 <= j < map.tiles@.len() implies map.tiles@[j] == (
        if in_v_corridor(j, w, y1 as int, y2 as int, x as int) {
            Tile::Floor
        } else {
            orig.tiles@[j]
        }) by {
            assert(mid[j] == (if j % w == x && start <= j / w <= end {
                Tile::Floor
            } else {
                orig.tiles@[j]
            }));
        }
        assert(map.tiles@ =~= carve_v_spec(orig.tiles@, w, y1 as int, y2 as int, x as int));
    }
}

/// The full spec-level state of room generation after some iterations:
/// the tile grid, the rooms placed so far, the stream state, and whether
/// generation stopped early.
pub struct GenState {
    pub tiles: Seq<Tile>,
    pub rooms: Seq<RectI>,
    pub rng: u64,
    pub done: bool,
}

/// Whether a candidate room comes within the two-tile clearance buffer of
/// any already-placed room.
pub open spec fn rooms_too_close(rooms: Seq<RectI>, cand: RectI, width: int, height: int) -> bool {
    exists|k: int|
        0 <= k < rooms.len() && spec_intersects(cand, spec_buffered(rooms[k], width, height))
}

/// The grid after carving the L-shaped corridor pair between the centers
/// of `prev` and `room`; `heads` picks horizontal-first over
/// vertical-first.
pub open spec fn corridor_tiles(
    tiles: Seq<Tile>,
    width: int,
    height: int,
    prev: RectI,
    room: RectI,
    heads: bool,
) -> Seq<Tile> {
    let px = spec_center(prev).0;
    let py = spec_center(prev).1;
    let nx = spec_center(room).0;
    let ny = spec_center(room).1;
    if heads {
        carve_v_spec(carve_h_spec(tiles, width, height, px, nx, py), width, py, ny, nx)
    } else {
        carve_h_spec(carve_v_spec(tiles, width, py, ny, px), width, height, px, nx, ny)
    }
}

/// One attempt of the room placement loop: draw a size, stop if it cannot
/// fit, otherwise draw a position, reject it when too close to an earlier
/// room, and otherwise carve the room and its connecting corridors.
pub open spec fn gen_step(st: GenState, width: int, height: int) -> GenState {
    if st.done {
        st
    } else {
        let s1 = rng_step(st.rng);
        let w = 6 + rng_out(s1) as int % 7;
        let s2 = rng_step(s1);
        let h = 6 + rng_out(s2) as int % 5;
        if width <= w + 4 || height <= h + 4 {
            GenState { rng: s2, done: true, ..st }
        } else {
            let s3 = rng_step(s2);
            let x = 2 + rng_out(s3) as int % (width - w - 4);
            let s4 = rng_step(s3);
            let y = 2 + rng_out(s4) as int % (height - h - 4);
            let room = RectI { x1: x, y1: y, x2: x + w, y2: y + h };
            if rooms_too_close(st.rooms, room, width, height) {
                GenState { rng: s4, ..st }
            } else if st.rooms.len() == 0 {
                GenState {
                    tiles: carve_rect_spec(st.tiles, width, room),
                    rooms: st.rooms.push(room),
                    rng: s4,
                    done: false,
                }
            } else {
                let s5 = rng_step(s4);
                let heads = rng_out(s5) % 2 == 1;
                GenState {
                    tiles: corridor_tiles(
                        carve_rect_spec(st.tiles, width, room),
                        width,
                        height,
                        st.rooms.last(),
                        room,
                        heads,
                    ),
                    rooms: st.rooms.push(room),
                    rng: s5,
                    done: false,
                }
            }
        }
    }
}

/// The state before any placement attempt: an all-wall grid and the seed.
pub open spec fn gen_init(width: int, height: int, seed: u64) -> GenState {
    GenState {
        tiles: Seq::new((width * height) as nat, |i: int| Tile::Wall),
        rooms: Seq::empty(),
        rng: seed,
        done: false,
    }
}

/// The generation state after `n` placement attempts.
pub open spec fn gen_iter(width: int, height: int, seed: u64, n: nat) -> GenState
    decreases n,
{
    if n == 0 {
        gen_init(width, height, seed)
    } else {
        gen_step(gen_iter(width, height, seed, (n - 1) as nat), width, height)
    }
}

/// The generation state after all ten placement attempts: what
/// `generate_rooms_and_corridors` computes, as a function of the width,
/// height and seed alone.
pub open spec fn gen_rooms_spec(width: int, height: int, seed: u64) -> GenState {
    gen_iter(width, height, seed, 10)
}

/// `r` grown by the two-tile clearance buffer, clipped to the grid.
fn buffered_rect(r: &Rect, width: usize, height: usize) -> (b: Rect)
    requires
        1 <= width <= 10000,
        1 <= height <= 10000,
        r.in_grid(width as int, height as int),
    ensures
        rect_i(b) == spec_buffered(rect_i(*r), width as int, height as int),
{
    Rect {
        x1: r.x1.saturating_sub(2),
        y1: r.y1.saturating_sub(2),
        x2: if r.x2 + 2 <= width - 1 {
            r.x2 + 2
        } else {
            width - 1
        },
        y2: if r.y2 + 2 <= height - 1 {
            r.y2 + 2
        } else {
            height - 1
        },
    }
}

/// Generate rooms and corridors from a seed. Corridors are two tiles wide
/// to avoid single-tile dead ends. The resulting grid is a pure function
/// of the width, height and seed, and holds only wall and floor tiles.
pub fn generate_rooms_and_corridors(width: usize, height: usize, seed: u64) -> (m: GameMap)
    requires
        2 <= width <= 10000,
        2 <= height <= 10000,
    ensures
        m.wf(),
        m.width == width,
        m.height == height,
        m.tiles@ == gen_rooms_spec(width as int, height as int, seed).tiles,
        forall|i: int|
            0 <= i < m.tiles@.len() ==> (m.tiles@[i] == Tile::Wall || m.tiles@[i] == Tile::Floor),
{
    let ghost wi = width as int;
    let ghost hi = height as int;
    let mut rng = SeededRng::new(seed);
    let mut map = GameMap::new(width, height, Tile::Wall);
    let mut rooms: Vec<Rect> = Vec::new();
    let mut done = false;
    proof {
        assert(map.tiles@ =~= gen_init(wi, hi, seed).tiles);
        assert(rooms@.map_values(|r: Rect| rect_i(r)) =~= gen_init(wi, hi, seed).rooms);
    }
    let mut it: usize = 0;
    while it < 10
        invariant
            2 <= width <= 10000,
            2 <= height <= 10000,
            wi == width as int,
            hi == height as int,
            it <= 10,
            map.wf(),
            map.width == width,
            map.height == height,
            map.tiles@ == gen_iter(wi, hi, seed, it as nat).tiles,
            rooms@.map_values(|r: Rect| rect_i(r)) == gen_iter(wi, hi, seed, it as nat).rooms,
            rng.state == gen_iter(wi, hi, seed, it as nat).rng,
            done == gen_iter(wi, hi, seed, it as nat).done,
            forall|k: int| 0 <= k < rooms@.len() ==> (#[trigger] rooms@[k]).in_grid(wi, hi),
            forall|i: int|
                0 <= i < map.tiles@.len() ==> (map.tiles@[i] == Tile::Wall || map.tiles@[i]
                    == Tile::Floor),
        decreases 10 - it,
    {
        let ghost st0 = gen_iter(wi, hi, seed, it as nat);
        if !done {
            let w = 6 + rng.gen_range(7);
            let h = 6 + rng.gen_range(5);
            if width <= w + 4 || height <= h + 4 {
                done = true;
            } else {
                let x = 2 + rng.gen_range(width - w - 4);
                let y = 2 + rng.gen_range(height - h - 4);
                let new_room = Rect { x1: x, y1: y, x2: x + w, y2: y + h };
                let ghost cand = rect_i(new_room);
                let mut ok = true;
                let n_rooms = rooms.len();
                let mut k: usize = 0;
                while k < n_rooms
                    invariant
                        1 <= width <= 10000,
                        1 <= height <= 10000,
                        wi == width as int,
                        hi == height as int,
                        n_rooms == rooms@.len(),
                        k <= n_rooms,
                        cand == rect_i(new_room),
                        forall|kk: int| 0 <= kk < rooms@.len() ==> (#[trigger] rooms@[kk]).in_grid(
                            wi,
                            hi,
                        ),
                        ok == !(exists|kk: int|
                            0 <= kk < k && spec_intersects(
                                cand,
                                spec_buffered(rect_i(rooms@[kk]), wi, hi),
                            )),
                    decreases n_rooms - k,
                {
                    let r = rooms[k];
                    let buffered = buffered_rect(&r, width, height);
                    if new_room.intersects(&buffered) {
                        ok = false;
                    }
                    k = k + 1;
                }
                proof {
                    let rs = rooms@.map_values(|r: Rect| rect_i(r));
                    assert(rs.len() == rooms@.len());
                    if ok {
                        assert forall|kk: int| 0 <= kk < rs.len() implies !spec_intersects(
                            cand,
                            spec_buffered(#[trigger] rs[kk], wi, hi),
                        ) by {
                            assert(rs[kk] == rect_i(rooms@[kk]));
                            assert(!spec_intersects(
                                cand,
                                spec_buffered(rect_i(rooms@[kk]), wi, hi),
                            ));
                        }
                        assert(!rooms_too_close(st0.rooms, cand, wi, hi));
                    } else {
                        let kk = choose|kk: int|
                            0 <= kk < n_rooms && spec_intersects(
                                cand,
                                spec_buffered(rect_i(rooms@[kk]), wi, hi),
                            );
                        assert(rs[kk] == rect_i(rooms@[kk]));
                        assert(spec_intersects(cand, spec_buffered(rs[kk], wi, hi)));
                        assert(rooms_too_close(st0.rooms, cand, wi, hi));
                    }
                }
                if ok {
                    carve_room(&mut map, new_room);
                    if rooms.len() > 0 {
                        let prev = rooms[rooms.len() - 1];
                        let pc = prev.center();
                        let nc = new_room.center();
                        if rng.coin() {
                            carve_h_corridor2(&mut map, pc.0, nc.0, pc.1);
                            carve_v_corridor2(&mut map, pc.1, nc.1, nc.0);
                        } else {
                            carve_v_corridor2(&mut map, pc.1, nc.1, pc.0);
                            carve_h_corridor2(&mut map, pc.0, nc.0, nc.1);
                        }
                        proof {
                            assert(st0.rooms.last() == rect_i(rooms@[rooms@.len() - 1]));
                        }
                    }
                    rooms.push(new_room);
                    proof {
                        assert(rooms@.map_values(|r: Rect| rect_i(r)) =~= st0.rooms.push(cand));
                    }
                }
            }
        }
        it = it + 1;
        proof {
            assert(gen_iter(wi, hi, seed, it as nat) == gen_step(st0, wi, hi));
            assert(map.tiles@ == gen_iter(wi, hi, seed, it as nat).tiles);
            assert(rooms@.map_values(|r: Rect| rect_i(r)) == gen_iter(wi, hi, seed, it as nat).rooms);
            assert(rng.state == gen_iter(wi, hi, seed, it as nat).rng);
            assert(done == gen_iter(wi, hi, seed, it as nat).done);
        }
    }
    map
}

} // verus!

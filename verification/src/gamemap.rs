//! The tile grid: a rectangular, row-major map of tiles with bounds and
//! walkability queries.

use vstd::prelude::*;

use crate::tile::{spec_walkable, tile_walkable, Tile};

verus! {

/// The first linear index at or after `i` holding a floor tile.
pub open spec fn first_floor_from(tiles: Seq<Tile>, i: nat) -> Option<nat>
    decreases tiles.len() - i,
{
    if i >= tiles.len() {
        None
    } else if tiles[i as int] == Tile::Floor {
        Some(i)
    } else {
        first_floor_from(tiles, i + 1)
    }
}

/// A `width` by `height` grid of tiles, stored row-major.
#[derive(Clone, Debug)]
pub struct GameMap {
    pub width: usize,
    pub height: usize,
    pub tiles: Vec<Tile>,
}

impl GameMap {
    /// Well-formedness: the tile vector covers the grid exactly, and the
    /// dimensions are positive and small enough that every coordinate and
    /// linear index fits comfortably in the machine types.
    pub open spec fn wf(&self) -> bool {
        &&& 1 <= self.width <= 10000
        &&& 1 <= self.height <= 10000
        &&& self.tiles@.len() == self.width * self.height
    }

    /// The linear index of cell `(x, y)`.
    pub open spec fn spec_idx(&self, x: int, y: int) -> int {
        y * self.width + x
    }

    /// The tile of cell `(x, y)`.
    pub open spec fn tile_at(&self, x: int, y: int) -> Tile {
        self.tiles@[y * self.width + x]
    }

    /// Whether `(x, y)` lies on the grid.
    pub open spec fn spec_in_bounds(&self, x: int, y: int) -> bool {
        0 <= x < self.width && 0 <= y < self.height
    }

    /// A fresh map with every cell holding `fill`.
    pub fn new(width: usize, height: usize, fill: Tile) -> (r: GameMap)
        requires
            1 <= width <= 10000,
            1 <= height <= 10000,
        ensures
            r.wf(),
            r.width == width,
            r.height == height,
            r.tiles@ == Seq::new((width * height) as nat, |i: int| fill),
            forall|x: int, y: int|
                r.spec_in_bounds(x, y) ==> r.tile_at(x, y) == fill,
    {
        proof {
            lemma_area_small(width as int, height as int);
        }
        let tiles: Vec<Tile> = vec![fill; width * height];
        let r = GameMap { width, height, tiles };
        proof {
            assert(r.tiles@ =~= Seq::new((width * height) as nat, |i: int| fill));
        }
        proof {
            assert forall|x: int, y: int| r.spec_in_bounds(x, y) implies r.tile_at(x, y)
                == fill by {
                lemma_idx_in_range(x, y, width as int, height as int);
            }
        }
        r
    }

    /// The linear index of cell `(x, y)`.
    pub fn idx(&self, x: usize, y: usize) -> (r: usize)
        requires
            self.wf(),
            x < self.width,
            y < self.height,
        ensures
            r == self.spec_idx(x as int, y as int),
            r < self.tiles@.len(),
    {
        proof {
            lemma_idx_in_range(x as int, y as int, self.width as int, self.height as int);
            lemma_area_small(self.width as int, self.height as int);
        }
        y * self.width + x
    }

    /// Tile lookup by coordinate.
    pub fn get(&self, x: usize, y: usize) -> (r: Tile)
        requires
            self.wf(),
            x < self.width,
            y < self.height,
        ensures
            r == self.tile_at(x as int, y as int),
    {
        let i = self.idx(x, y);
        self.tiles[i]
    }

    /// Tile update by coordinate.
    pub fn set(&mut self, x: usize, y: usize, t: Tile)
        requires
            old(self).wf(),
            x < old(self).width,
            y < old(self).height,
        ensures
            final(self).wf(),
            final(self).width == old(self).width,
            final(self).height == old(self).height,
            final(self).tiles@ == old(self).tiles@.update(
                old(self).spec_idx(x as int, y as int),
                t,
            ),
    {
        let i = self.idx(x, y);
        self.tiles.set(i, t);
    }

    /// Bounds check on signed coordinates.
    pub fn in_bounds(&self, x: i32, y: i32) -> (r: bool)
        requires
            self.wf(),
        ensures
            r == self.spec_in_bounds(x as int, y as int),
    {
        x >= 0 && y >= 0 && (x as usize) < self.width && (y as usize) < self.height
    }

    /// The first floor tile in row-major scan order, used for spawn
    /// placement.
    pub fn find_first_floor(&self) -> (r: Option<(usize, usize)>)
        requires
            self.wf(),
        ensures
            match r {
                Some((x, y)) => {
                    &&& first_floor_from(self.tiles@, 0) == Some(
                        (y * self.width + x) as nat,
                    )
                    &&& x < self.width
                    &&& y < self.height
                    &&& self.tile_at(x as int, y as int) == Tile::Floor
                },
                None => first_floor_from(self.tiles@, 0) is None,
            },
    {
        let n = self.tiles.len();
        let mut i: usize = 0;
        while i < n
            invariant
                self.wf(),
                n == self.tiles@.len(),
                i <= n,
                first_floor_from(self.tiles@, 0) == first_floor_from(self.tiles@, i as nat),
            decreases n - i,
        {
            if self.tiles[i] == Tile::Floor {
                let x = i % self.width;
                let y = i / self.width;
                proof {
                    let w = self.width as int;
                    vstd::arithmetic::div_mod::lemma_fundamental_div_mod(i as int, w);
                    lemma_div_in_height(i as int, w, self.height as int);
                    assert((i as int) / w * w == w * ((i as int) / w)) by (nonlinear_arith);
                    assert(y * self.width + x == i);
                    assert(first_floor_from(self.tiles@, i as nat) == Some(i as nat));
                }
                return Some((x, y));
            }
            i = i + 1;
        }
        None
    }

    /// Walkability: floor and chest tiles are walkable; wall and door tiles
    /// are not.
    pub fn is_walkable(&self, x: usize, y: usize) -> (r: bool)
        requires
            self.wf(),
            x < self.width,
            y < self.height,
        ensures
            r == spec_walkable(self.tile_at(x as int, y as int)),
    {
        tile_walkable(self.get(x, y))
    }
}

/// A small grid's area stays far below the machine's index limit.
pub proof fn lemma_area_small(w: int, h: int)
    requires
        0 <= w <= 10000,
        0 <= h <= 10000,
    ensures
        w * h <= 100000000,
{
    assert(w * h <= 100000000) by (nonlinear_arith)
        requires
            0 <= w <= 10000,
            0 <= h <= 10000,
    ;
}

/// A coordinate pair inside a `w` by `h` grid has a linear index inside the
/// grid's tile count.
pub proof fn lemma_idx_in_range(x: int, y: int, w: int, h: int)
    requires
        0 <= x < w,
        0 <= y < h,
    ensures
        0 <= y * w + x < w * h,
{
    assert(0 <= y * w + x < w * h) by (nonlinear_arith)
        requires
            0 <= x < w,
            0 <= y < h,
    ;
}

/// A linear index inside the grid divides into a row inside the grid.
pub proof fn lemma_div_in_height(i: int, w: int, h: int)
    requires
        w >= 1,
        0 <= i < w * h,
    ensures
        0 <= i / w < h,
        0 <= i % w < w,
{
    assert(0 <= i / w < h && 0 <= i % w < w) by (nonlinear_arith)
        requires
            w >= 1,
            0 <= i < w * h,
    ;
}

/// One axis of the viewport origin: the camera centers on the player,
/// clamps to the map's near edge, and, when the view is smaller than the
/// map, clamps to its far edge.
pub open spec fn axis_origin(p: int, map: int, view: int) -> int {
    let near = if p - view / 2 < 0 {
        0
    } else {
        p - view / 2
    };
    if view < map && near + view > map {
        map - view
    } else {
        near
    }
}

/// The top-left map cell of a viewport centered on the player and
/// clamped to the map.
pub fn compute_viewport_origin(px: i32, py: i32, map_w: i32, map_h: i32, view_w: i32, view_h: i32) -> (r: (
    i32,
    i32,
))
    requires
        -100000 <= px <= 100000,
        -100000 <= py <= 100000,
        0 <= map_w <= 100000,
        0 <= map_h <= 100000,
        0 <= view_w <= 100000,
        0 <= view_h <= 100000,
    ensures
        r.0 as int == axis_origin(px as int, map_w as int, view_w as int),
        r.1 as int == axis_origin(py as int, map_h as int, view_h as int),
{
    let mut x0: i32 = px - view_w / 2;
    let mut y0: i32 = py - view_h / 2;
    if x0 < 0 {
        x0 = 0;
    }
    if y0 < 0 {
        y0 = 0;
    }
    if view_w < map_w && x0 + view_w > map_w {
        x0 = map_w - view_w;
    }
    if view_h < map_h && y0 + view_h > map_h {
        y0 = map_h - view_h;
    }
    (x0, y0)
}

} // verus!

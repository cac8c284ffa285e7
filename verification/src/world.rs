//! The world: two levels, the player, the NPC roster, the bounded log,
//! the governing seed and the current game phase, all mutated by a single
//! controller entry point.

use std::collections::VecDeque;

use vstd::prelude::*;

use crate::entity::{Consumable, Equipment, Player};
use crate::gamemap::{first_floor_from, GameMap};
use crate::generator::{gen_rooms_spec, generate_rooms_and_corridors};
use crate::rng::{rng_out, rng_step, SeededRng};
use crate::tile::{spec_walkable, Tile};

verus! {

/// A one-shot treasure chest: a position, an optional consumable and an
/// optional piece of equipment, and whether it has been opened.
#[derive(Clone, Debug)]
pub struct Chest {
    pub x: i32,
    pub y: i32,
    pub item: Option<Consumable>,
    pub weapon: Option<Equipment>,
    pub opened: bool,
}

/// One explorable room-set: a map plus its door and chests.
#[derive(Debug)]
pub struct Level {
    pub map: GameMap,
    pub door: (i32, i32),
    pub chests: Vec<Chest>,
}

impl Level {
    /// The map is well-formed and the door lies on it.
    pub open spec fn wf(&self) -> bool {
        &&& self.map.wf()
        &&& self.map.spec_in_bounds(self.door.0 as int, self.door.1 as int)
        &&& forall|k: int|
            0 <= k < self.chests@.len() ==> self.map.spec_in_bounds(
                (#[trigger] self.chests@[k]).x as int,
                self.chests@[k].y as int,
            )
    }
}

/// The game phase.
#[derive(Clone, Copy, Debug, PartialEq, Eq, Structural)]
pub enum GameState {
    Title,
    Intro,
    Playing,
    Dialogue,
    Battle,
}

/// The identity of a non-player character.
#[derive(Clone, Copy, Debug, PartialEq, Eq, Structural)]
pub enum NpcId {
    MayorSol,
    Noor,
    Lamp,
    Random1,
    Random2,
    Random3,
    Weeping1,
    Weeping2,
    Weeping3,
    Weeping4,
    Shab,
    Krad,
    Mah,
}

/// A named, positioned, symbol-tagged non-player character.
#[derive(Clone, Debug)]
pub struct Npc {
    pub id: NpcId,
    pub name: String,
    pub room: usize,
    pub x: i32,
    pub y: i32,
    pub symbol: char,
}

/// A pending dialogue choice awaiting a single-character answer.
#[derive(Clone, Debug)]
pub enum AwaitingChoice {
    YesNoMayor,
    ABNoorWeapon,
    Chest { room: usize, x: i32, y: i32, item: Option<Consumable>, weapon: Option<Equipment> },
}

/// A paginated text session with an optional pending choice.
#[derive(Clone, Debug)]
pub struct DialogueSession {
    pub npc: NpcId,
    pub title: String,
    pub pages: Vec<String>,
    pub page_index: usize,
    pub awaiting: Option<AwaitingChoice>,
}

impl DialogueSession {
    /// There is always a current page.
    pub open spec fn wf(&self) -> bool {
        &&& self.pages@.len() > 0
        &&& self.page_index < self.pages@.len()
    }
}

/// A turn-based combat session against a single enemy.
#[derive(Clone, Debug)]
pub struct BattleSession {
    pub enemy_id: NpcId,
    pub enemy_name: String,
    pub enemy_hp: i32,
    pub enemy_max_hp: i32,
    pub enemy_atk: i32,
    pub enemy_def: i32,
    pub enemy_speed: i32,
    /// Forced enemy-first initiative for this turn.
    pub penalty_mode: bool,
    /// The player deliberately started this fight, which disallows
    /// fleeing.
    pub player_initiated: bool,
}

impl BattleSession {
    /// The enemy's numbers stay within the clamped stat range.
    pub open spec fn wf(&self) -> bool {
        &&& -1000000 <= self.enemy_hp <= 1000000
        &&& -1000000 <= self.enemy_max_hp <= 1000000
        &&& -1000000 <= self.enemy_atk <= 1000000
        &&& -1000000 <= self.enemy_def <= 1000000
        &&& -1000000 <= self.enemy_speed <= 1000000
    }
}

/// The whole game state.
pub struct World {
    pub levels: Vec<Level>,
    pub current: usize,
    pub player: Player,
    pub logs: VecDeque<String>,
    pub seed: u64,
    /// The current time in milliseconds, supplied by the external loop;
    /// buff expiry is measured against it.
    pub clock_ms: u64,
    pub inventory_open: bool,
    pub stats_open: bool,
    pub state: GameState,
    pub intro_lines: Vec<String>,
    pub npcs: Vec<Npc>,
    pub mayor_done: bool,
    pub noor_done: bool,
    pub lamp_done: bool,
    pub shab_defeated: bool,
    pub krad_defeated: bool,
    pub mah_defeated: bool,
    pub dialogue: Option<DialogueSession>,
    pub battle: Option<BattleSession>,
}

impl World {
    /// The structural core of the invariant: two well-formed levels, a
    /// well-formed player standing on the current level, a bounded log,
    /// and every NPC on a level.
    pub open spec fn wf_core(&self) -> bool {
        &&& self.levels@.len() == 2
        &&& self.current < 2
        &&& self.levels@[0].wf()
        &&& self.levels@[1].wf()
        &&& self.player.wf()
        &&& 0 <= self.player.x < self.levels@[self.current as int].map.width
        &&& 0 <= self.player.y < self.levels@[self.current as int].map.height
        &&& self.logs@.len() <= 6
        &&& forall|k: int|
            0 <= k < self.npcs@.len() ==> {
                let n = #[trigger] self.npcs@[k];
                &&& n.room < 2
                &&& self.levels@[n.room as int].map.spec_in_bounds(n.x as int, n.y as int)
            }
    }

    /// The structural invariant of the world: the core plus a session
    /// exactly when the phase says so, and well-formed sessions.
    pub open spec fn wf(&self) -> bool {
        &&& self.wf_core()
        &&& (self.state == GameState::Dialogue <==> self.dialogue is Some)
        &&& (self.state == GameState::Battle <==> self.battle is Some)
        &&& (self.dialogue matches Some(d) ==> d.wf())
        &&& (self.battle matches Some(b) ==> b.wf())
    }

    /// The map of the level the player is on.
    pub open spec fn spec_current_map(&self) -> GameMap {
        self.levels@[self.current as int].map
    }

    /// Append a log line, evicting the oldest line once the capacity of
    /// six is reached.
    pub fn push_log(&mut self, msg: String)
        requires
            old(self).logs@.len() <= 6,
        ensures
            *final(self) == (World { logs: final(self).logs, ..*old(self) }),
            final(self).logs@ == if old(self).logs@.len() < 6 {
                old(self).logs@.push(msg)
            } else {
                old(self).logs@.push(msg).subrange(1, 7)
            },
            final(self).logs@.len() <= 6,
            final(self).logs@.last() == msg,
            logged(old(self).logs@, final(self).logs@, msg@),
    {
        self.logs.push_back(msg);
        if self.logs.len() > 6 {
            let _ = self.logs.pop_front();
        }
        proof {
            if old(self).logs@.len() < 6 {
                assert(self.logs@.drop_last() =~= old(self).logs@);
            } else {
                assert(self.logs@.drop_last() =~= old(self).logs@.subrange(1, 6));
            }
        }
    }
}

/// The log `post` is `pre` with exactly one line of view `line` appended,
/// the oldest line evicted once the capacity of six was reached.
pub open spec fn logged(pre: Seq<String>, post: Seq<String>, line: Seq<char>) -> bool {
    &&& post.len() == vstd::math::min(pre.len() as int + 1, 6)
    &&& post.len() > 0
    &&& post.last()@ == line
    &&& post.drop_last() == (if pre.len() < 6 {
        pre
    } else {
        pre.subrange(1, 6)
    })
}

/// Whether `(x, y)` is an on-map floor tile of `m`.
pub open spec fn cell_is_floor(m: GameMap, x: int, y: int) -> bool {
    m.spec_in_bounds(x, y) && m.tile_at(x, y) == Tile::Floor
}

/// The floor cells among the first `n` cells of the grid, in row-major
/// scan order, as coordinate pairs.
pub open spec fn floor_cells(tiles: Seq<Tile>, width: int, n: int) -> Seq<(i32, i32)>
    decreases n,
{
    if n <= 0 {
        Seq::empty()
    } else {
        let rest = floor_cells(tiles, width, n - 1);
        if tiles[n - 1] == Tile::Floor {
            rest.push((((n - 1) % width) as i32, ((n - 1) / width) as i32))
        } else {
            rest
        }
    }
}

/// The first `n` cells of `cells` with every occurrence of `ex` removed,
/// in order.
pub open spec fn cells_excluding(cells: Seq<(i32, i32)>, ex: (i32, i32), n: int) -> Seq<(i32, i32)>
    decreases n,
{
    if n <= 0 {
        Seq::empty()
    } else {
        let rest = cells_excluding(cells, ex, n - 1);
        if cells[n - 1] == ex {
            rest
        } else {
            rest.push(cells[n - 1])
        }
    }
}

/// The linear index of a coordinate pair.
pub open spec fn cell_idx(c: (i32, i32), width: int) -> int {
    c.1 * width + c.0
}

/// The door cell for a grid and seed: drawn uniformly from the floor
/// cells other than `spawn`, or `spawn` itself when no other floor cell
/// exists.
pub open spec fn door_of(tiles: Seq<Tile>, width: int, seed: u64, spawn: (i32, i32)) -> (
    i32,
    i32,
) {
    let floors = floor_cells(tiles, width, tiles.len() as int);
    let fx = cells_excluding(floors, spawn, floors.len() as int);
    if fx.len() == 0 {
        spawn
    } else {
        fx[rng_out(rng_step(seed)) as int % fx.len() as int]
    }
}

/// Every cell that `floor_cells` collects lies on the grid and holds a
/// floor tile there.
pub proof fn lemma_floor_cells_props(tiles: Seq<Tile>, width: int, height: int, n: int)
    requires
        1 <= width <= 10000,
        1 <= height <= 10000,
        tiles.len() == width * height,
        0 <= n <= tiles.len(),
    ensures
        forall|k: int|
            0 <= k < floor_cells(tiles, width, n).len() ==> {
                let c = #[trigger] floor_cells(tiles, width, n)[k];
                &&& 0 <= c.0 < width
                &&& 0 <= c.1 < height
                &&& tiles[cell_idx(c, width)] == Tile::Floor
            },
    decreases n,
{
    if n > 0 {
        lemma_floor_cells_props(tiles, width, height, n - 1);
        if tiles[n - 1] == Tile::Floor {
            crate::gamemap::lemma_div_in_height(n - 1, width, height);
            vstd::arithmetic::div_mod::lemma_fundamental_div_mod(n - 1, width);
            assert(width * ((n - 1) / width) == ((n - 1) / width) * width) by (nonlinear_arith);
            let c = ((((n - 1) % width) as i32), (((n - 1) / width) as i32));
            assert(cell_idx(c, width) == n - 1);
        }
    }
}

/// Every cell that `cells_excluding` keeps differs from the excluded cell
/// and occurs in the original list.
pub proof fn lemma_cells_excluding_props(cells: Seq<(i32, i32)>, ex: (i32, i32), n: int)
    requires
        0 <= n <= cells.len(),
    ensures
        forall|k: int|
            0 <= k < cells_excluding(cells, ex, n).len() ==> {
                let c = #[trigger] cells_excluding(cells, ex, n)[k];
                &&& c != ex
                &&& cells.contains(c)
            },
    decreases n,
{
    if n > 0 {
        lemma_cells_excluding_props(cells, ex, n - 1);
        let prev = cells_excluding(cells, ex, n - 1);
        let cur = cells_excluding(cells, ex, n);
        assert forall|k: int| 0 <= k < cur.len() implies (cur[k] != ex && cells.contains(
            cur[k],
        )) by {
            if k < prev.len() {
                assert(cur[k] == prev[k]);
            } else {
                assert(cur[k] == cells[n - 1]);
                assert(cells[n - 1] != ex);
                assert(cells.contains(cells[n - 1]));
            }
        }
    }
}

/// The Chebyshev distance of two cells, as the executable distance
/// helper computes it.
pub open spec fn spec_cheb(a: (i32, i32), b: (i32, i32)) -> int {
    vstd::math::max(
        vstd::math::abs(a.0 as int - b.0 as int) as int,
        vstd::math::abs(a.1 as int - b.1 as int) as int,
    )
}

/// Whether `c` keeps Chebyshev distance at least `min_dist` from every
/// cell of `taken`.
pub open spec fn spaced_from(c: (i32, i32), taken: Seq<(i32, i32)>, min_dist: int) -> bool {
    forall|j: int| 0 <= j < taken.len() ==> spec_cheb(#[trigger] taken[j], c) >= min_dist
}

/// The first `n` cells of `cells` that do not occur in `excl`, in order.
pub open spec fn cells_not_in(cells: Seq<(i32, i32)>, excl: Seq<(i32, i32)>, n: int) -> Seq<
    (i32, i32),
>
    decreases n,
{
    if n <= 0 {
        Seq::empty()
    } else {
        let rest = cells_not_in(cells, excl, n - 1);
        if excl.contains(cells[n - 1]) {
            rest
        } else {
            rest.push(cells[n - 1])
        }
    }
}

/// The first `n` cells of `cells` spaced at least `min_dist` from every
/// cell of `taken`, in order.
pub open spec fn cells_spaced(
    cells: Seq<(i32, i32)>,
    taken: Seq<(i32, i32)>,
    min_dist: int,
    n: int,
) -> Seq<(i32, i32)>
    decreases n,
{
    if n <= 0 {
        Seq::empty()
    } else {
        let rest = cells_spaced(cells, taken, min_dist, n - 1);
        if spaced_from(cells[n - 1], taken, min_dist) {
            rest.push(cells[n - 1])
        } else {
            rest
        }
    }
}

/// Every cell `cells_not_in` keeps occurs in the original list and not in
/// the exclusion list.
pub proof fn lemma_cells_not_in_props(cells: Seq<(i32, i32)>, excl: Seq<(i32, i32)>, n: int)
    requires
        0 <= n <= cells.len(),
    ensures
        forall|k: int|
            0 <= k < cells_not_in(cells, excl, n).len() ==> {
                let c = #[trigger] cells_not_in(cells, excl, n)[k];
                &&& cells.contains(c)
                &&& !excl.contains(c)
            },
    decreases n,
{
    if n > 0 {
        lemma_cells_not_in_props(cells, excl, n - 1);
        let prev = cells_not_in(cells, excl, n - 1);
        let cur = cells_not_in(cells, excl, n);
        assert forall|k: int| 0 <= k < cur.len() implies (cells.contains(cur[k]) && !excl.contains(
            cur[k],
        )) by {
            if k < prev.len() {
                assert(cur[k] == prev[k]);
            } else {
                assert(cur[k] == cells[n - 1]);
                assert(cells.contains(cells[n - 1]));
            }
        }
    }
}

/// Every cell `cells_spaced` keeps occurs in the original list and keeps
/// the spacing.
pub proof fn lemma_cells_spaced_props(
    cells: Seq<(i32, i32)>,
    taken: Seq<(i32, i32)>,
    min_dist: int,
    n: int,
)
    requires
        0 <= n <= cells.len(),
    ensures
        forall|k: int|
            0 <= k < cells_spaced(cells, taken, min_dist, n).len() ==> {
                let c = #[trigger] cells_spaced(cells, taken, min_dist, n)[k];
                &&& cells.contains(c)
                &&& spaced_from(c, taken, min_dist)
            },
    decreases n,
{
    if n > 0 {
        lemma_cells_spaced_props(cells, taken, min_dist, n - 1);
        let prev = cells_spaced(cells, taken, min_dist, n - 1);
        let cur = cells_spaced(cells, taken, min_dist, n);
        assert forall|k: int| 0 <= k < cur.len() implies (cells.contains(cur[k]) && spaced_from(
            cur[k],
            taken,
            min_dist,
        )) by {
            if k < prev.len() {
                assert(cur[k] == prev[k]);
            } else {
                assert(cur[k] == cells[n - 1]);
                assert(cells.contains(cells[n - 1]));
            }
        }
    }
}

impl World {
    /// Collect every floor cell of a map in scan order.
    fn collect_floors(map: &GameMap) -> (v: Vec<(i32, i32)>)
        requires
            map.wf(),
        ensures
            v@ == floor_cells(map.tiles@, map.width as int, map.tiles@.len() as int),
    {
        let n = map.tiles.len();
        let mut v: Vec<(i32, i32)> = Vec::new();
        let mut i: usize = 0;
        while i < n
            invariant
                map.wf(),
                n == map.tiles@.len(),
                i <= n,
                v@ == floor_cells(map.tiles@, map.width as int, i as int),
            decreases n - i,
        {
            if matches!(map.tiles[i], Tile::Floor) {
                proof {
                    crate::gamemap::lemma_area_small(map.width as int, map.height as int);
                    crate::gamemap::lemma_div_in_height(
                        i as int,
                        map.width as int,
                        map.height as int,
                    );
                }
                let x = (i % map.width) as i32;
                let y = (i / map.width) as i32;
                v.push((x, y));
            }
            i = i + 1;
        }
        v
    }

    /// The cells of `cells` other than `ex`, in order.
    fn cells_without(cells: &Vec<(i32, i32)>, ex: (i32, i32)) -> (v: Vec<(i32, i32)>)
        ensures
            v@ == cells_excluding(cells@, ex, cells@.len() as int),
    {
        let n = cells.len();
        let mut v: Vec<(i32, i32)> = Vec::new();
        let mut i: usize = 0;
        while i < n
            invariant
                n == cells@.len(),
                i <= n,
                v@ == cells_excluding(cells@, ex, i as int),
            decreases n - i,
        {
            let c = cells[i];
            if !(c.0 == ex.0 && c.1 == ex.1) {
                v.push(c);
            }
            i = i + 1;
        }
        v
    }

    /// Pick one floor tile, uniformly at random among all floor tiles
    /// excluding `exclude`, and convert it to a door. On a grid whose only
    /// floor cell is `exclude` (or with no floor at all), the door falls
    /// on `exclude` itself.
    #[verifier::rlimit(50)]
    pub fn place_random_door(map: &mut GameMap, seed: u64, exclude: (i32, i32)) -> (door: (
        i32,
        i32,
    ))
        requires
            old(map).wf(),
            old(map).spec_in_bounds(exclude.0 as int, exclude.1 as int),
        ensures
            final(map).wf(),
            final(map).width == old(map).width,
            final(map).height == old(map).height,
            door == door_of(old(map).tiles@, old(map).width as int, seed, exclude),
            final(map).spec_in_bounds(door.0 as int, door.1 as int),
            final(map).tiles@ == old(map).tiles@.update(
                cell_idx(door, old(map).width as int),
                Tile::Door,
            ),
            final(map).tile_at(door.0 as int, door.1 as int) == Tile::Door,
            !spec_walkable(final(map).tile_at(door.0 as int, door.1 as int)),
            ({
                let floors = floor_cells(
                    old(map).tiles@,
                    old(map).width as int,
                    old(map).tiles@.len() as int,
                );
                let fx = cells_excluding(floors, exclude, floors.len() as int);
                fx.len() > 0 ==> {
                    &&& old(map).tile_at(door.0 as int, door.1 as int) == Tile::Floor
                    &&& door != exclude
                }
            }),
    {
        let ghost w = map.width as int;
        let ghost h = map.height as int;
        let floors = Self::collect_floors(map);
        let fx = Self::cells_without(&floors, exclude);
        let door: (i32, i32);
        if fx.len() == 0 {
            door = exclude;
        } else {
            let mut rng = SeededRng::new(seed);
            let idx = rng.gen_range(fx.len());
            door = fx[idx];
            proof {
                lemma_cells_excluding_props(floors@, exclude, floors@.len() as int);
                assert(fx@[idx as int] == door);
                assert(door != exclude && floors@.contains(door));
                let j = choose|j: int| 0 <= j < floors@.len() && floors@[j] == door;
                lemma_floor_cells_props(map.tiles@, w, h, map.tiles@.len() as int);
                assert(floor_cells(map.tiles@, w, map.tiles@.len() as int)[j] == door);
                assert(0 <= door.0 < w && 0 <= door.1 < h && map.tiles@[cell_idx(door, w)]
                    == Tile::Floor);
            }
        }
        proof {
            crate::gamemap::lemma_idx_in_range(door.0 as int, door.1 as int, w, h);
            assert(door == door_of(old(map).tiles@, w, seed, exclude));
        }
        map.set(door.0 as usize, door.1 as usize, Tile::Door);
        door
    }
}

/// The display name of consumable kind `k`.
pub open spec fn consumable_name(k: int) -> Seq<char> {
    if k == 0 {
        "Fiery ale"@
    } else if k == 1 {
        "Weeping Willow bark"@
    } else if k == 2 {
        "Sunny Jerky"@
    } else {
        "Frozen tears"@
    }
}

/// The heal amount of consumable kind `k`.
pub open spec fn consumable_heal(k: int) -> int {
    if k == 0 {
        2
    } else if k == 1 {
        3
    } else if k == 2 {
        5
    } else {
        -2
    }
}

/// The attack bonus of consumable kind `k`.
pub open spec fn consumable_atk(k: int) -> int {
    if k == 0 {
        2
    } else {
        0
    }
}

/// The defense bonus of consumable kind `k`.
pub open spec fn consumable_def(k: int) -> int {
    if k == 3 {
        5
    } else {
        0
    }
}

/// Whether a consumable value is the consumable of kind `k`.
pub open spec fn is_consumable_kind(c: Consumable, k: int) -> bool {
    &&& c.name@ == consumable_name(k)
    &&& c.heal == consumable_heal(k)
    &&& c.atk_bonus == consumable_atk(k)
    &&& c.def_bonus == consumable_def(k)
}

/// One chest spot pick: up to `tries` rejection-sampling draws from
/// `floors`, skipping cells in `excl`, falling back to `fallback` when
/// every try was rejected. Yields the spot and the stream state after it.
pub open spec fn pick_spot(
    s: u64,
    floors: Seq<(i32, i32)>,
    excl: Seq<(i32, i32)>,
    tries: int,
    fallback: (i32, i32),
) -> ((i32, i32), u64)
    decreases tries,
{
    if tries <= 0 {
        (fallback, s)
    } else {
        let s1 = rng_step(s);
        let cand = floors[rng_out(s1) as int % floors.len() as int];
        if !excl.contains(cand) {
            (cand, s1)
        } else {
            pick_spot(s1, floors, excl, tries - 1, fallback)
        }
    }
}

/// The chest scatter after `n` chests: the picked spots with their
/// consumable kinds, the grown exclusion list, and the stream state.
pub open spec fn chests_iter(
    s: u64,
    floors: Seq<(i32, i32)>,
    excl: Seq<(i32, i32)>,
    fallback: (i32, i32),
    n: int,
) -> (Seq<((i32, i32), int)>, Seq<(i32, i32)>, u64)
    decreases n,
{
    if n <= 0 {
        (Seq::empty(), excl, s)
    } else {
        let prev = chests_iter(s, floors, excl, fallback, n - 1);
        let pick = pick_spot(prev.2, floors, prev.1, 200, fallback);
        let s2 = rng_step(pick.1);
        let kind = rng_out(s2) as int % 4;
        (prev.0.push((pick.0, kind)), prev.1.push(pick.0), s2)
    }
}

/// The grid with every cell of `cells` set to `t`.
pub open spec fn set_cells(tiles: Seq<Tile>, width: int, cells: Seq<(i32, i32)>, t: Tile) -> Seq<
    Tile,
>
    decreases cells.len(),
{
    if cells.len() == 0 {
        tiles
    } else {
        set_cells(tiles, width, cells.drop_last(), t).update(cell_idx(cells.last(), width), t)
    }
}

/// A spot picked by `pick_spot` is a listed floor cell or the fallback.
pub proof fn lemma_pick_spot_props(
    s: u64,
    floors: Seq<(i32, i32)>,
    excl: Seq<(i32, i32)>,
    tries: int,
    fallback: (i32, i32),
)
    requires
        floors.len() > 0,
    ensures
        pick_spot(s, floors, excl, tries, fallback).0 == fallback || floors.contains(
            pick_spot(s, floors, excl, tries, fallback).0,
        ),
    decreases tries,
{
    if tries > 0 {
        let s1 = rng_step(s);
        let cand = floors[rng_out(s1) as int % floors.len() as int];
        if !excl.contains(cand) {
            if floors.len() > 0 {
                assert(0 <= rng_out(s1) as int % (floors.len() as int) < floors.len());
                assert(floors.contains(cand));
            }
        } else {
            lemma_pick_spot_props(s1, floors, excl, tries - 1, fallback);
        }
    }
}

/// Every spot of a chest scatter is a listed floor cell or the fallback.
pub proof fn lemma_chests_iter_props(
    s: u64,
    floors: Seq<(i32, i32)>,
    excl: Seq<(i32, i32)>,
    fallback: (i32, i32),
    n: int,
)
    requires
        n <= 0 || floors.len() > 0,
    ensures
        chests_iter(s, floors, excl, fallback, n).0.len() == if n <= 0 {
            0int
        } else {
            n
        },
        forall|k: int|
            0 <= k < chests_iter(s, floors, excl, fallback, n).0.len() ==> {
                let c = (#[trigger] chests_iter(s, floors, excl, fallback, n).0[k]).0;
                ||| c == fallback
                ||| floors.contains(c)
            },
    decreases n,
{
    if n > 0 {
        lemma_chests_iter_props(s, floors, excl, fallback, n - 1);
        let prev = chests_iter(s, floors, excl, fallback, n - 1);
        let cur = chests_iter(s, floors, excl, fallback, n);
        lemma_pick_spot_props(prev.2, floors, prev.1, 200, fallback);
        assert forall|k: int| 0 <= k < cur.0.len() implies {
            let c = (#[trigger] cur.0[k]).0;
            ||| c == fallback
            ||| floors.contains(c)
        } by {
            if k < prev.0.len() {
                assert(cur.0[k] == prev.0[k]);
            } else {
                assert(cur.0[k] == (pick_spot(prev.2, floors, prev.1, 200, fallback).0,
                cur.0[k].1));
            }
        }
    }
}

impl World {
    /// Whether a list of cells holds `c`.
    fn contains_cell(v: &Vec<(i32, i32)>, c: (i32, i32)) -> (r: bool)
        ensures
            r == v@.contains(c),
    {
        let n = v.len();
        let mut i: usize = 0;
        while i < n
            invariant
                n == v@.len(),
                i <= n,
                forall|k: int| 0 <= k < i ==> v@[k] != c,
            decreases n - i,
        {
            let e = v[i];
            if e.0 == c.0 && e.1 == c.1 {
                return true;
            }
            i = i + 1;
        }
        proof {
            assert(!v@.contains(c));
        }
        false
    }

    /// One of the four themed consumables, drawn from the stream.
    fn random_consumable(rng: &mut SeededRng) -> (c: Consumable)
        ensures
            final(rng).state == rng_step(old(rng).state),
            is_consumable_kind(c, rng_out(rng_step(old(rng).state)) as int % 4),
    {
        let k = rng.gen_range(4);
        if k == 0 {
            Consumable { name: String::from_str("Fiery ale"), heal: 2, atk_bonus: 2, def_bonus: 0 }
        } else if k == 1 {
            Consumable {
                name: String::from_str("Weeping Willow bark"),
                heal: 3,
                atk_bonus: 0,
                def_bonus: 0,
            }
        } else if k == 2 {
            Consumable { name: String::from_str("Sunny Jerky"), heal: 5, atk_bonus: 0, def_bonus: 0 }
        } else {
            Consumable {
                name: String::from_str("Frozen tears"),
                heal: -2,
                atk_bonus: 0,
                def_bonus: 5,
            }
        }
    }

    /// One rejection-sampled chest spot.
    fn pick_spot_exec(
        rng: &mut SeededRng,
        floors: &Vec<(i32, i32)>,
        excl: &Vec<(i32, i32)>,
        fallback: (i32, i32),
    ) -> (r: (i32, i32))
        requires
            floors@.len() > 0,
        ensures
            (r, final(rng).state) == pick_spot(old(rng).state, floors@, excl@, 200, fallback),
    {
        let mut t: usize = 0;
        while t < 200
            invariant
                floors@.len() > 0,
                t <= 200,
                pick_spot(old(rng).state, floors@, excl@, 200, fallback) == pick_spot(
                    rng.state,
                    floors@,
                    excl@,
                    200 - t as int,
                    fallback,
                ),
            decreases 200 - t,
        {
            let idx = rng.gen_range(floors.len());
            let cand = floors[idx];
            if !Self::contains_cell(excl, cand) {
                return cand;
            }
            t = t + 1;
        }
        fallback
    }

    /// Scatter up to three one-shot chests on floor tiles, avoiding the
    /// spawn, the door and earlier chests, with rejection sampling capped
    /// at 200 attempts for each (falling back to the spawn cell).
    #[verifier::rlimit(100)]
    pub fn scatter_chests(map: &mut GameMap, seed: u64, spawn: (i32, i32), door: (i32, i32)) -> (chests:
        Vec<Chest>)
        requires
            old(map).wf(),
            old(map).spec_in_bounds(spawn.0 as int, spawn.1 as int),
        ensures
            final(map).wf(),
            final(map).width == old(map).width,
            final(map).height == old(map).height,
            ({
                let w = old(map).width as int;
                let floors = floor_cells(old(map).tiles@, w, old(map).tiles@.len() as int);
                let count = vstd::math::min(3, floors.len() as int);
                let picks = chests_iter(seed, floors, seq![spawn, door], spawn, count).0;
                &&& chests@.len() == count
                &&& (forall|k: int|
                    0 <= k < count ==> {
                        let c = #[trigger] chests@[k];
                        &&& (c.x, c.y) == picks[k].0
                        &&& c.weapon is None
                        &&& !c.opened
                        &&& c.item matches Some(it) && is_consumable_kind(it, picks[k].1)
                    })
                &&& final(map).tiles@ == set_cells(
                    old(map).tiles@,
                    w,
                    picks.map_values(|p: ((i32, i32), int)| p.0),
                    Tile::Chest,
                )
                &&& (forall|k: int|
                    0 <= k < count ==> final(map).spec_in_bounds(
                        (#[trigger] chests@[k]).x as int,
                        chests@[k].y as int,
                    ))
            }),
    {
        let ghost w = map.width as int;
        let ghost h = map.height as int;
        let ghost orig = *map;
        let floors = Self::collect_floors(map);
        proof {
            lemma_floor_cells_props(map.tiles@, w, h, map.tiles@.len() as int);
        }
        let count = if floors.len() < 3 {
            floors.len()
        } else {
            3
        };
        let mut rng = SeededRng::new(seed);
        let mut chests: Vec<Chest> = Vec::new();
        let mut exclude: Vec<(i32, i32)> = Vec::new();
        exclude.push(spawn);
        exclude.push(door);
        proof {
            assert(exclude@ =~= seq![spawn, door]);
        }
        let ghost excl0 = exclude@;
        let mut i: usize = 0;
        while i < count
            invariant
                map.wf(),
                map.width == orig.width,
                map.height == orig.height,
                w == map.width as int,
                h == map.height as int,
                i <= count,
                count == vstd::math::min(
                    3,
                    floor_cells(orig.tiles@, w, orig.tiles@.len() as int).len() as int,
                ),
                floors@ == floor_cells(orig.tiles@, w, orig.tiles@.len() as int),
                count > 0 ==> floors@.len() > 0,
                excl0 == seq![spawn, door],
                0 <= spawn.0 < w && 0 <= spawn.1 < h,
                forall|k: int|
                    0 <= k < floors@.len() ==> {
                        let c = #[trigger] floors@[k];
                        &&& 0 <= c.0 < w
                        &&& 0 <= c.1 < h
                    },
                ({
                    let st = chests_iter(seed, floors@, excl0, spawn, i as int);
                    &&& chests@.len() == i
                    &&& (forall|k: int|
                        0 <= k < i ==> {
                            let c = #[trigger] chests@[k];
                            &&& (c.x, c.y) == st.0[k].0
                            &&& c.weapon is None
                            &&& !c.opened
                            &&& c.item matches Some(it) && is_consumable_kind(it, st.0[k].1)
                        })
                    &&& exclude@ == st.1
                    &&& rng.state == st.2
                    &&& map.tiles@ == set_cells(
                        orig.tiles@,
                        w,
                        st.0.map_values(|p: ((i32, i32), int)| p.0),
                        Tile::Chest,
                    )
                    &&& (forall|k: int|
                        0 <= k < i ==> map.spec_in_bounds(
                            (#[trigger] chests@[k]).x as int,
                            chests@[k].y as int,
                        ))
                }),
            decreases count - i,
        {
            let ghost st_pre = chests_iter(seed, floors@, excl0, spawn, i as int);
            let ghost old_chests = chests@;
            let pos = Self::pick_spot_exec(&mut rng, &floors, &exclude, spawn);
            proof {
                lemma_pick_spot_props(st_pre.2, floors@, st_pre.1, 200, spawn);
                if pos != spawn {
                    let j = choose|j: int| 0 <= j < floors@.len() && floors@[j] == pos;
                    assert(floors@[j] == pos);
                }
                assert(0 <= pos.0 < w && 0 <= pos.1 < h);
            }
            let ghost pickg = pick_spot(st_pre.2, floors@, st_pre.1, 200, spawn);
            let item = Self::random_consumable(&mut rng);
            let ghost s2 = rng_step(pickg.1);
            let ghost kind = rng_out(s2) as int % 4;
            exclude.push(pos);
            map.set(pos.0 as usize, pos.1 as usize, Tile::Chest);
            chests.push(Chest { x: pos.0, y: pos.1, item: Some(item), weapon: None, opened: false });
            i = i + 1;
            proof {
                lemma_chests_iter_props(seed, floors@, excl0, spawn, i as int - 1);
                assert(st_pre.0.len() == i - 1);
                let st = chests_iter(seed, floors@, excl0, spawn, i as int);
                assert(st == (st_pre.0.push((pos, kind)), st_pre.1.push(pos), s2));
                assert(chests@.len() == i);
                assert forall|k: int| 0 <= k < i implies {
                    let c = #[trigger] chests@[k];
                    &&& (c.x, c.y) == st.0[k].0
                    &&& c.weapon is None
                    &&& !c.opened
                    &&& c.item matches Some(it) && is_consumable_kind(it, st.0[k].1)
                } by {
                    if k < i - 1 {
                        assert(chests@[k] == old_chests[k]);
                        assert(st.0[k] == st_pre.0[k]);
                    } else {
                        assert(st.0[k] == (pos, kind));
                    }
                }
                assert(st.0.map_values(|p: ((i32, i32), int)| p.0).drop_last() =~= st_pre.0.map_values(
                    |p: ((i32, i32), int)| p.0,
                ));
                assert(st.0.map_values(|p: ((i32, i32), int)| p.0).last() == pos);
                assert(map.tiles@ == set_cells(
                    orig.tiles@,
                    w,
                    st.0.map_values(|p: ((i32, i32), int)| p.0),
                    Tile::Chest,
                ));
                assert forall|k: int| 0 <= k < i implies map.spec_in_bounds(
                    (#[trigger] chests@[k]).x as int,
                    chests@[k].y as int,
                ) by {
                    if k < i - 1 {
                        assert(chests@[k] == old_chests[k]);
                    }
                }
            }
        }
        proof {
            lemma_chests_iter_props(seed, floors@, excl0, spawn, count as int);
        }
        chests
    }
}

/// The seed of level `depth`, derived from the base seed by deterministic
/// arithmetic.
pub open spec fn level_seed(base: u64, depth: int) -> u64 {
    vstd::wrapping::u64_specs::wrapping_add(base, (depth * 9973) as u64)
}

/// The raw room-and-corridor grid of level `depth`.
pub open spec fn level_gen_tiles(base: u64, depth: int, width: int, height: int) -> Seq<Tile> {
    gen_rooms_spec(width, height, level_seed(base, depth)).tiles
}

/// The spawn cell of level `depth`: the first floor tile in scan order,
/// or `(1, 1)` on a grid without floor.
pub open spec fn level_spawn(base: u64, depth: int, width: int, height: int) -> (i32, i32) {
    match first_floor_from(level_gen_tiles(base, depth, width, height), 0) {
        Some(i) => ((i as int % width) as i32, (i as int / width) as i32),
        None => (1, 1),
    }
}

/// The door cell of level `depth`.
pub open spec fn level_door_pos(base: u64, depth: int, width: int, height: int) -> (i32, i32) {
    door_of(
        level_gen_tiles(base, depth, width, height),
        width,
        level_seed(base, depth) ^ 0xD00D,
        level_spawn(base, depth, width, height),
    )
}

/// The grid of level `depth` after door conversion.
pub open spec fn level_tiles_with_door(base: u64, depth: int, width: int, height: int) -> Seq<
    Tile,
> {
    level_gen_tiles(base, depth, width, height).update(
        cell_idx(level_door_pos(base, depth, width, height), width),
        Tile::Door,
    )
}

/// The chest spots of level `depth` with their consumable kinds.
pub open spec fn level_chest_data(base: u64, depth: int, width: int, height: int) -> Seq<
    ((i32, i32), int),
> {
    let t = level_tiles_with_door(base, depth, width, height);
    let floors = floor_cells(t, width, t.len() as int);
    chests_iter(
        level_seed(base, depth) ^ 0xC1E57,
        floors,
        seq![
            level_spawn(base, depth, width, height),
            level_door_pos(base, depth, width, height),
        ],
        level_spawn(base, depth, width, height),
        vstd::math::min(3, floors.len() as int),
    ).0
}

/// The final grid of level `depth`.
pub open spec fn level_tiles(base: u64, depth: int, width: int, height: int) -> Seq<Tile> {
    set_cells(
        level_tiles_with_door(base, depth, width, height),
        width,
        level_chest_data(base, depth, width, height).map_values(|p: ((i32, i32), int)| p.0),
        Tile::Chest,
    )
}

/// Whether a chest list realizes the picked spots and consumable kinds.
pub open spec fn chests_match(chests: Seq<Chest>, picks: Seq<((i32, i32), int)>) -> bool {
    &&& chests.len() == picks.len()
    &&& forall|k: int|
        0 <= k < picks.len() ==> {
            let c = #[trigger] chests[k];
            &&& (c.x, c.y) == picks[k].0
            &&& c.weapon is None
            &&& !c.opened
            &&& c.item matches Some(it) && is_consumable_kind(it, picks[k].1)
        }
}

/// Pointwise description of `set_cells` on in-grid cells.
pub proof fn lemma_set_cells_pointwise(
    tiles: Seq<Tile>,
    width: int,
    height: int,
    cells: Seq<(i32, i32)>,
    t: Tile,
)
    requires
        1 <= width,
        1 <= height,
        tiles.len() == width * height,
        forall|k: int|
            0 <= k < cells.len() ==> {
                let c = #[trigger] cells[k];
                &&& 0 <= c.0 < width
                &&& 0 <= c.1 < height
            },
    ensures
        set_cells(tiles, width, cells, t).len() == tiles.len(),
        forall|j: int|
            0 <= j < tiles.len() ==> #[trigger] set_cells(tiles, width, cells, t)[j] == (
            if (exists|k: int| 0 <= k < cells.len() && cell_idx(#[trigger] cells[k], width) == j) {
                t
            } else {
                tiles[j]
            }),
    decreases cells.len(),
{
    if cells.len() > 0 {
        let prefix = cells.drop_last();
        lemma_set_cells_pointwise(tiles, width, height, prefix, t);
        let lastc = cells.last();
        let li = cell_idx(lastc, width);
        crate::gamemap::lemma_idx_in_range(lastc.0 as int, lastc.1 as int, width, height);
        assert forall|j: int| 0 <= j < tiles.len() implies #[trigger] set_cells(
            tiles,
            width,
            cells,
            t,
        )[j] == (if (exists|k: int|
            0 <= k < cells.len() && cell_idx(#[trigger] cells[k], width) == j) {
            t
        } else {
            tiles[j]
        }) by {
            if j == li {
                assert(cell_idx(cells[cells.len() - 1], width) == j);
            } else {
                if exists|k: int| 0 <= k < cells.len() && cell_idx(#[trigger] cells[k], width)
                    == j {
                    let k = choose|k: int|
                        0 <= k < cells.len() && cell_idx(#[trigger] cells[k], width) == j;
                    assert(k < cells.len() - 1);
                    assert(cell_idx(prefix[k], width) == j);
                }
            }
        }
    }
}

impl World {
    /// Build one level from the base seed: generate the grid, take the
    /// first floor tile as spawn, convert one other floor tile to the
    /// door, and scatter the chests. Everything the level holds is a pure
    /// function of the base seed, the depth and the dimensions.
    #[verifier::rlimit(100)]
    pub fn make_level(base_seed: u64, depth: usize, width: usize, height: usize) -> (r: (
        Level,
        (i32, i32),
    ))
        requires
            depth <= 1,
            2 <= width <= 10000,
            2 <= height <= 10000,
        ensures
            r.0.wf(),
            r.0.map.width == width,
            r.0.map.height == height,
            r.0.map.tiles@ == level_tiles(base_seed, depth as int, width as int, height as int),
            r.0.door == level_door_pos(base_seed, depth as int, width as int, height as int),
            chests_match(
                r.0.chests@,
                level_chest_data(base_seed, depth as int, width as int, height as int),
            ),
            r.1 == level_spawn(base_seed, depth as int, width as int, height as int),
            r.0.map.spec_in_bounds(r.1.0 as int, r.1.1 as int),
            ({
                let g = level_gen_tiles(base_seed, depth as int, width as int, height as int);
                let fx = cells_excluding(
                    floor_cells(g, width as int, g.len() as int),
                    r.1,
                    floor_cells(g, width as int, g.len() as int).len() as int,
                );
                fx.len() > 0 ==> {
                    &&& g[cell_idx(r.0.door, width as int)] == Tile::Floor
                    &&& r.0.door != r.1
                    &&& r.0.map.tile_at(r.0.door.0 as int, r.0.door.1 as int) == Tile::Door
                    &&& !spec_walkable(r.0.map.tile_at(r.0.door.0 as int, r.0.door.1 as int))
                    &&& forall|j: int|
                        0 <= j < r.0.map.tiles@.len() && j != cell_idx(r.0.door, width as int)
                            ==> r.0.map.tiles@[j] != Tile::Door
                }
            }),
    {
        let ghost wi = width as int;
        let ghost hi = height as int;
        let seed = base_seed.wrapping_add((depth as u64) * 9973);
        proof {
            assert(seed == level_seed(base_seed, depth as int));
        }
        let mut map = generate_rooms_and_corridors(width, height, seed);
        let ghost g = map.tiles@;
        let spawn_opt = map.find_first_floor();
        let spawn: (i32, i32) = match spawn_opt {
            Some((sx, sy)) => {
                proof {
                    let i = (sy * width + sx) as int;
                    crate::generator::lemma_cell_index(wi, sx as int, sy as int, i);
                }
                (sx as i32, sy as i32)
            },
            None => (1, 1),
        };
        proof {
            assert(spawn == level_spawn(base_seed, depth as int, wi, hi));
        }
        let door = Self::place_random_door(&mut map, seed ^ 0xD00D, spawn);
        let ghost dtiles = map.tiles@;
        let chests = Self::scatter_chests(&mut map, seed ^ 0xC1E57, spawn, door);
        proof {
            assert(door == level_door_pos(base_seed, depth as int, wi, hi));
            assert(dtiles == level_tiles_with_door(base_seed, depth as int, wi, hi));
            assert(map.tiles@ == level_tiles(base_seed, depth as int, wi, hi));
            let floors_d = floor_cells(dtiles, wi, dtiles.len() as int);
            let cnt0 = vstd::math::min(3, floors_d.len() as int);
            lemma_chests_iter_props(seed ^ 0xC1E57, floors_d, seq![spawn, door], spawn, cnt0);
            let picks0 = level_chest_data(base_seed, depth as int, wi, hi);
            assert(picks0.len() == cnt0);
            assert(chests@.len() == picks0.len());
            assert(chests_match(chests@, picks0));
            let floors0 = floor_cells(g, wi, g.len() as int);
            let fx = cells_excluding(floors0, spawn, floors0.len() as int);
            if fx.len() > 0 {
                let floors2 = floor_cells(dtiles, wi, dtiles.len() as int);
                lemma_floor_cells_props(dtiles, wi, hi, dtiles.len() as int);
                let picks = level_chest_data(base_seed, depth as int, wi, hi);
                let cnt = vstd::math::min(3, floors2.len() as int);
                lemma_chests_iter_props(
                    seed ^ 0xC1E57,
                    floors2,
                    seq![spawn, door],
                    spawn,
                    cnt,
                );
                let cells = picks.map_values(|p: ((i32, i32), int)| p.0);
                assert forall|k: int| 0 <= k < cells.len() implies {
                    let c = #[trigger] cells[k];
                    &&& 0 <= c.0 < wi
                    &&& 0 <= c.1 < hi
                } by {
                    assert(cells[k] == picks[k].0);
                    if picks[k].0 != spawn {
                        let j = choose|j: int|
                            0 <= j < floors2.len() && floors2[j] == picks[k].0;
                        assert(floors2[j] == picks[k].0);
                    }
                }
                lemma_set_cells_pointwise(dtiles, wi, hi, cells, Tile::Chest);
                let didx = cell_idx(door, wi);
                crate::gamemap::lemma_idx_in_range(door.0 as int, door.1 as int, wi, hi);
                assert forall|k: int| 0 <= k < cells.len() implies cell_idx(
                    #[trigger] cells[k],
                    wi,
                ) != didx by {
                    assert(cells[k] == picks[k].0);
                    crate::generator::lemma_cell_index(wi, door.0 as int, door.1 as int, cell_idx(cells[k], wi));
                    crate::gamemap::lemma_idx_in_range(cells[k].0 as int, cells[k].1 as int, wi, hi);
                    if cell_idx(cells[k], wi) == didx {
                        crate::generator::lemma_cell_index(wi, cells[k].0 as int, cells[k].1 as int, didx);
                        assert(cells[k] == door);
                        if picks[k].0 != spawn {
                            let j = choose|j: int|
                                0 <= j < floors2.len() && floors2[j] == picks[k].0;
                            assert(floors2[j] == picks[k].0);
                            assert(dtiles[cell_idx(door, wi)] == Tile::Floor);
                        }
                    }
                }
                assert(map.tiles@[didx] == Tile::Door);
                assert forall|j: int|
                    0 <= j < map.tiles@.len() && j != didx implies map.tiles@[j]
                    != Tile::Door by {
                    assert(g[j] == Tile::Wall || g[j] == Tile::Floor);
                    assert(dtiles[j] == g[j]);
                }
            }
        }
        (Level { map, door, chests }, spawn)
    }
}

impl World {
    /// Whether `(x, y)` is a floor tile of level `room`.
    pub fn is_floor(&self, room: usize, x: i32, y: i32) -> (r: bool)
        requires
            self.levels@.len() == 2,
            room < 2,
            self.levels@[room as int].wf(),
        ensures
            r == {
                let m = self.levels@[room as int].map;
                m.spec_in_bounds(x as int, y as int) && m.tile_at(x as int, y as int)
                    == Tile::Floor
            },
    {
        let map = &self.levels[room].map;
        if x < 0 || y < 0 || x as usize >= map.width || y as usize >= map.height {
            return false;
        }
        matches!(map.get(x as usize, y as usize), Tile::Floor)
    }

    /// The Chebyshev distance of two cells.
    fn cheb_dist(a: (i32, i32), b: (i32, i32)) -> (r: i64)
        ensures
            r >= 0,
            r == vstd::math::max(
                vstd::math::abs(a.0 as int - b.0 as int) as int,
                vstd::math::abs(a.1 as int - b.1 as int) as int,
            ),
    {
        let dx: i64 = if a.0 as i64 >= b.0 as i64 {
            a.0 as i64 - b.0 as i64
        } else {
            b.0 as i64 - a.0 as i64
        };
        let dy: i64 = if a.1 as i64 >= b.1 as i64 {
            a.1 as i64 - b.1 as i64
        } else {
            b.1 as i64 - a.1 as i64
        };
        if dx >= dy {
            dx
        } else {
            dy
        }
    }

    /// A floor tile of level `room` not in `exclude`, drawn from the
    /// seeded stream; `fallback` when every floor tile is excluded.
    fn random_floor_excluding(&self, room: usize, exclude: &Vec<(i32, i32)>, fallback: (
        i32,
        i32,
    )) -> (r: (i32, i32))
        requires
            self.levels@.len() == 2,
            room < 2,
            self.levels@[room as int].wf(),
            self.levels@[room as int].map.spec_in_bounds(fallback.0 as int, fallback.1 as int),
        ensures
            self.levels@[room as int].map.spec_in_bounds(r.0 as int, r.1 as int),
            cell_is_floor(self.levels@[room as int].map, r.0 as int, r.1 as int) || r == fallback,
            ({
                let m = self.levels@[room as int].map;
                let floors = floor_cells(m.tiles@, m.width as int, m.tiles@.len() as int);
                let cand = cells_not_in(floors, exclude@, floors.len() as int);
                if cand.len() > 0 {
                    &&& cell_is_floor(m, r.0 as int, r.1 as int)
                    &&& !exclude@.contains(r)
                } else {
                    r == fallback
                }
            }),
    {
        let map = &self.levels[room].map;
        let ghost w = map.width as int;
        let ghost h = map.height as int;
        let all_floors = Self::collect_floors(map);
        proof {
            lemma_floor_cells_props(map.tiles@, w, h, map.tiles@.len() as int);
        }
        let n = all_floors.len();
        let mut floors: Vec<(i32, i32)> = Vec::new();
        let mut i: usize = 0;
        while i < n
            invariant
                n == all_floors@.len(),
                i <= n,
                floors@ == cells_not_in(all_floors@, exclude@, i as int),
            decreases n - i,
        {
            let c = all_floors[i];
            if !Self::contains_cell(exclude, c) {
                floors.push(c);
            }
            i = i + 1;
        }
        if floors.len() == 0 {
            return fallback;
        }
        let mut rng = SeededRng::new(self.seed ^ 0xBEEF);
        let idx = rng.gen_range(floors.len());
        let r = floors[idx];
        proof {
            lemma_cells_not_in_props(all_floors@, exclude@, n as int);
            assert(all_floors@.contains(r) && !exclude@.contains(r));
            let j = choose|j: int| 0 <= j < all_floors@.len() && all_floors@[j] == r;
            assert(all_floors@[j] == r);
        }
        r
    }

    /// A floor tile of level `room` at Chebyshev distance at least
    /// `min_dist` from every cell of `taken`, drawn from the seeded
    /// stream. When no tile satisfies the spacing constraint, the
    /// constraint is relaxed to plain exclusion; `fallback` covers a level
    /// without any eligible floor.
    pub(crate) fn random_floor_spaced(
        &self,
        room: usize,
        taken: &Vec<(i32, i32)>,
        min_dist: i64,
        fallback: (i32, i32),
    ) -> (r: (i32, i32))
        requires
            self.levels@.len() == 2,
            room < 2,
            self.levels@[room as int].wf(),
            self.levels@[room as int].map.spec_in_bounds(fallback.0 as int, fallback.1 as int),
        ensures
            self.levels@[room as int].map.spec_in_bounds(r.0 as int, r.1 as int),
            cell_is_floor(self.levels@[room as int].map, r.0 as int, r.1 as int) || r == fallback,
            ({
                let m = self.levels@[room as int].map;
                let floors = floor_cells(m.tiles@, m.width as int, m.tiles@.len() as int);
                let spaced = cells_spaced(floors, taken@, min_dist as int, floors.len() as int);
                let cand = cells_not_in(floors, taken@, floors.len() as int);
                if spaced.len() > 0 {
                    &&& cell_is_floor(m, r.0 as int, r.1 as int)
                    &&& spaced_from(r, taken@, min_dist as int)
                } else if cand.len() > 0 {
                    &&& cell_is_floor(m, r.0 as int, r.1 as int)
                    &&& !taken@.contains(r)
                } else {
                    r == fallback
                }
            }),
    {
        let map = &self.levels[room].map;
        let ghost w = map.width as int;
        let ghost h = map.height as int;
        let all_floors = Self::collect_floors(map);
        proof {
            lemma_floor_cells_props(map.tiles@, w, h, map.tiles@.len() as int);
        }
        let n = all_floors.len();
        let mut floors: Vec<(i32, i32)> = Vec::new();
        let mut i: usize = 0;
        while i < n
            invariant
                n == all_floors@.len(),
                i <= n,
                floors@ == cells_spaced(all_floors@, taken@, min_dist as int, i as int),
            decreases n - i,
        {
            let c = all_floors[i];
            let mut ok = true;
            let tn = taken.len();
            let mut k: usize = 0;
            while k < tn
                invariant
                    tn == taken@.len(),
                    k <= tn,
                    ok == (forall|j: int|
                        0 <= j < k ==> spec_cheb(#[trigger] taken@[j], c) >= min_dist),
                decreases tn - k,
            {
                if Self::cheb_dist(taken[k], c) < min_dist {
                    ok = false;
                }
                k = k + 1;
            }
            proof {
                assert(ok == spaced_from(c, taken@, min_dist as int));
            }
            if ok {
                floors.push(c);
            }
            i = i + 1;
        }
        if floors.len() == 0 {
            return self.random_floor_excluding(room, taken, fallback);
        }
        let mut rng = SeededRng::new(
            self.seed ^ 0xBEEF ^ (taken.len() as u64).wrapping_mul(31),
        );
        let idx = rng.gen_range(floors.len());
        let r = floors[idx];
        proof {
            lemma_cells_spaced_props(all_floors@, taken@, min_dist as int, n as int);
            assert(all_floors@.contains(r) && spaced_from(r, taken@, min_dist as int));
            let j = choose|j: int| 0 <= j < all_floors@.len() && all_floors@[j] == r;
            assert(all_floors@[j] == r);
        }
        r
    }

    /// Place the fixed NPC roster: the mayor near the spawn, the other
    /// room-one characters spaced over its floor, and the weeping
    /// villagers with the three adversaries over room two.
    #[verifier::rlimit(100)]
    #[verifier::spinoff_prover]
    fn spawn_npcs(&mut self, spawn0: (i32, i32))
        requires
            old(self).levels@.len() == 2,
            old(self).levels@[0].wf(),
            old(self).levels@[1].wf(),
            old(self).levels@[0].map.spec_in_bounds(spawn0.0 as int, spawn0.1 as int),
            old(self).npcs@.len() == 0,
        ensures
            *final(self) == (World { npcs: final(self).npcs, ..*old(self) }),
            final(self).npcs@.len() == 13,
            roster_ok(final(self).npcs@),
            roster_on_floor(*final(self), spawn0),
            forall|k: int|
                0 <= k < final(self).npcs@.len() ==> {
                    let n = #[trigger] final(self).npcs@[k];
                    &&& n.room < 2
                    &&& final(self).levels@[n.room as int].map.spec_in_bounds(
                        n.x as int,
                        n.y as int,
                    )
                },
    {
        let ghost w0 = self.levels[0].map.width as int;
        // --- room one ---
        let mut mx = if spawn0.0 <= 10000 {
            spawn0.0 + 5
        } else {
            spawn0.0
        };
        let mut my = spawn0.1;
        if !self.is_floor(0, mx, my) {
            let mut placed = false;
            let candidates: [(i32, i32); 5] = [
                (mx, my + 1),
                (mx, my - 1),
                (mx + 1, my),
                (mx - 1, my),
                (spawn0.0, spawn0.1),
            ];
            let mut ci: usize = 0;
            while ci < 5
                invariant
                    self.levels@.len() == 2,
                    self.levels@[0].wf(),
                    *self == *old(self),
                    placed ==> self.levels@[0].map.spec_in_bounds(mx as int, my as int),
                    candidates[4] == (spawn0.0, spawn0.1),
                    self.levels@[0].map.spec_in_bounds(spawn0.0 as int, spawn0.1 as int),
                decreases 5 - ci,
            {
                if !placed {
                    let (cx, cy) = candidates[ci];
                    if self.is_floor(0, cx, cy) {
                        mx = cx;
                        my = cy;
                        placed = true;
                    }
                }
                ci = ci + 1;
            }
            if !placed {
                let m = &self.levels[0].map;
                if !(mx >= 0 && my >= 0 && (mx as usize) < m.width && (my as usize) < m.height) {
                    mx = spawn0.0;
                    my = spawn0.1;
                }
            }
        }
        self.npcs.push(
            Npc {
                id: NpcId::MayorSol,
                name: String::from_str("Mayor Sol"),
                room: 0,
                x: mx,
                y: my,
                symbol: 'M',
            },
        );
        let mut taken_r0: Vec<(i32, i32)> = Vec::new();
        taken_r0.push(spawn0);
        taken_r0.push((mx, my));
        taken_r0.push(self.levels[0].door);
        let c0n = self.levels[0].chests.len();
        let mut ci: usize = 0;
        while ci < c0n
            invariant
                self.levels@.len() == 2,
                self.levels@[0].wf(),
                c0n == self.levels@[0].chests@.len(),
                ci <= c0n,
            decreases c0n - ci,
        {
            let ch = (self.levels[0].chests[ci].x, self.levels[0].chests[ci].y);
            taken_r0.push(ch);
            ci = ci + 1;
        }
        let p = self.random_floor_spaced(0, &taken_r0, 5, spawn0);
        taken_r0.push(p);
        self.npcs.push(
            Npc { id: NpcId::Noor, name: String::from_str("Noor"), room: 0, x: p.0, y: p.1, symbol: 'N' },
        );
        let p = self.random_floor_spaced(0, &taken_r0, 5, spawn0);
        taken_r0.push(p);
        self.npcs.push(
            Npc { id: NpcId::Lamp, name: String::from_str("Lamp"), room: 0, x: p.0, y: p.1, symbol: 'L' },
        );
        let p = self.random_floor_spaced(0, &taken_r0, 5, spawn0);
        taken_r0.push(p);
        self.npcs.push(
            Npc {
                id: NpcId::Random1,
                name: String::from_str("Villager"),
                room: 0,
                x: p.0,
                y: p.1,
                symbol: 'o',
            },
        );
        let p = self.random_floor_spaced(0, &taken_r0, 5, spawn0);
        taken_r0.push(p);
        self.npcs.push(
            Npc {
                id: NpcId::Random2,
                name: String::from_str("Villager"),
                room: 0,
                x: p.0,
                y: p.1,
                symbol: 'o',
            },
        );
        let p = self.random_floor_spaced(0, &taken_r0, 5, spawn0);
        taken_r0.push(p);
        self.npcs.push(
            Npc {
                id: NpcId::Random3,
                name: String::from_str("Villager"),
                room: 0,
                x: p.0,
                y: p.1,
                symbol: 'o',
            },
        );
        // --- room two ---
        let door1 = self.levels[1].door;
        let mut taken_r1: Vec<(i32, i32)> = Vec::new();
        taken_r1.push(door1);
        let c1n = self.levels[1].chests.len();
        let mut cj: usize = 0;
        while cj < c1n
            invariant
                self.levels@.len() == 2,
                self.levels@[1].wf(),
                c1n == self.levels@[1].chests@.len(),
                cj <= c1n,
            decreases c1n - cj,
        {
            let ch = (self.levels[1].chests[cj].x, self.levels[1].chests[cj].y);
            taken_r1.push(ch);
            cj = cj + 1;
        }
        let p = self.random_floor_spaced(1, &taken_r1, 5, door1);
        taken_r1.push(p);
        self.npcs.push(
            Npc {
                id: NpcId::Weeping1,
                name: String::from_str("Weeping Villager"),
                room: 1,
                x: p.0,
                y: p.1,
                symbol: 'o',
            },
        );
        let p = self.random_floor_spaced(1, &taken_r1, 5, door1);
        taken_r1.push(p);
        self.npcs.push(
            Npc {
                id: NpcId::Weeping2,
                name: String::from_str("Weeping Villager"),
                room: 1,
                x: p.0,
                y: p.1,
                symbol: 'o',
            },
        );
        let p = self.random_floor_spaced(1, &taken_r1, 5, door1);
        taken_r1.push(p);
        self.npcs.push(
            Npc {
                id: NpcId::Weeping3,
                name: String::from_str("Weeping Villager"),
                room: 1,
                x: p.0,
                y: p.1,
                symbol: 'o',
            },
        );
        let p = self.random_floor_spaced(1, &taken_r1, 5, door1);
        taken_r1.push(p);
        self.npcs.push(
            Npc {
                id: NpcId::Weeping4,
                name: String::from_str("Weeping Villager"),
                room: 1,
                x: p.0,
                y: p.1,
                symbol: 'o',
            },
        );
        let p = self.random_floor_spaced(1, &taken_r1, 5, door1);
        taken_r1.push(p);
        self.npcs.push(
            Npc { id: NpcId::Shab, name: String::from_str("Shab"), room: 1, x: p.0, y: p.1, symbol: 'S' },
        );
        let p = self.random_floor_spaced(1, &taken_r1, 5, door1);
        taken_r1.push(p);
        self.npcs.push(
            Npc { id: NpcId::Krad, name: String::from_str("Krad"), room: 1, x: p.0, y: p.1, symbol: 'K' },
        );
        let p = self.random_floor_spaced(1, &taken_r1, 5, door1);
        taken_r1.push(p);
        self.npcs.push(
            Npc { id: NpcId::Mah, name: String::from_str("Mah"), room: 1, x: p.0, y: p.1, symbol: 'M' },
        );
    }
}

impl World {
    /// Create the world: both levels generated from the seed, the player
    /// at the first level's spawn, the NPC roster placed, and the phase
    /// at the title screen. The levels are a pure function of the seed
    /// and dimensions: creating two worlds from the same seed yields
    /// identical tile grids, door positions and chest contents.
    pub fn new(seed: u64, width: usize, height: usize) -> (r: World)
        requires
            2 <= width <= 10000,
            2 <= height <= 10000,
        ensures
            r.wf(),
            r.seed == seed,
            r.current == 0,
            r.state == GameState::Title,
            r.clock_ms == 0,
            !r.inventory_open,
            !r.stats_open,
            r.dialogue is None,
            r.battle is None,
            !r.mayor_done && !r.noor_done && !r.lamp_done,
            !r.shab_defeated && !r.krad_defeated && !r.mah_defeated,
            r.levels@.len() == 2,
            forall|d: int|
                0 <= d < 2 ==> {
                    let lv = #[trigger] r.levels@[d];
                    &&& lv.map.width == width
                    &&& lv.map.height == height
                    &&& lv.map.tiles@ == level_tiles(seed, d, width as int, height as int)
                    &&& lv.door == level_door_pos(seed, d, width as int, height as int)
                    &&& chests_match(
                        lv.chests@,
                        level_chest_data(seed, d, width as int, height as int),
                    )
                },
            (r.player.x, r.player.y) == level_spawn(seed, 0, width as int, height as int),
            r.player.hp == 30 && r.player.max_hp == 30,
            r.player.base_attack == 10 && r.player.base_defense == 8 && r.player.base_speed == 5,
            r.player.inventory.sword is None && r.player.inventory.shield is None,
            r.player.inventory.consumables@.len() == 0 && r.player.inventory.backpack@.len() == 0,
            r.player.buffs@.len() == 0,
            r.npcs@.len() == 13,
            roster_ok(r.npcs@),
            roster_on_floor(r, level_spawn(seed, 0, width as int, height as int)),
            r.logs@.len() == 6,
    {
        let (level0, spawn0) = Self::make_level(seed, 0, width, height);
        let (level1, _spawn1) = Self::make_level(seed, 1, width, height);
        let mut levels: Vec<Level> = Vec::new();
        levels.push(level0);
        levels.push(level1);
        let mut intro_lines: Vec<String> = Vec::new();
        intro_lines.push(
            String::from_str("Welcome to the Sunny Day, where everything was once bright"),
        );
        intro_lines.push(String::from_str("and happy, is now in despair."));
        intro_lines.push(String::from_str(""));
        intro_lines.push(String::from_str("It is up to you, to bring sunny times back."));
        intro_lines.push(String::from_str("Listen to its people, understand your mission."));
        let mut world = World {
            levels,
            current: 0,
            player: Player::new(spawn0.0, spawn0.1),
            logs: VecDeque::new(),
            seed,
            clock_ms: 0,
            inventory_open: false,
            stats_open: false,
            state: GameState::Title,
            intro_lines,
            npcs: Vec::new(),
            mayor_done: false,
            noor_done: false,
            lamp_done: false,
            shab_defeated: false,
            krad_defeated: false,
            mah_defeated: false,
            dialogue: None,
            battle: None,
        };
        let mut seed_msg = String::from_str("Seed: ");
        seed_msg.append(crate::strutil::u64_to_string(seed).as_str());
        world.push_log(seed_msg);
        world.push_log(String::from_str("Welcome to Sunny Day(s)."));
        world.push_log(String::from_str("Move with WASD or arrow keys."));
        world.push_log(String::from_str("Press E to talk to NPCs / open chests."));
        world.push_log(String::from_str("Press I to open inventory."));
        world.push_log(String::from_str("Press T to toggle inventory tabs."));
        world.push_log(String::from_str("Press Q to open stats."));
        world.spawn_npcs(spawn0);
        world
    }

    /// The fixed introduction text.
    pub fn intro_lines(&self) -> (r: &Vec<String>)
        ensures
            r == &self.intro_lines,
    {
        &self.intro_lines
    }

    /// The map of the level the player is on.
    pub fn current_map(&self) -> (r: &GameMap)
        requires
            self.wf(),
        ensures
            *r == self.spec_current_map(),
    {
        &self.levels[self.current].map
    }

    /// The NPC standing on `(x, y)` of level `room`, if any: the first
    /// matching roster entry in roster order.
    pub fn npc_at(&self, room: usize, x: i32, y: i32) -> (r: Option<&Npc>)
        ensures
            match r {
                Some(n) => {
                    &&& (first_npc_at(self.npcs@, room, x, y, 0) matches Some(j) && *n
                        == self.npcs@[j])
                    &&& self.npcs@.contains(*n)
                    &&& n.room == room
                    &&& n.x == x
                    &&& n.y == y
                },
                None => first_npc_at(self.npcs@, room, x, y, 0) is None,
            },
            (first_npc_at(self.npcs@, room, x, y, 0) is None) == (forall|k: int|
                0 <= k < self.npcs@.len() ==> !((#[trigger] self.npcs@[k]).room == room
                    && self.npcs@[k].x == x && self.npcs@[k].y == y)),
    {
        proof {
            lemma_first_npc_at_none(self.npcs@, room, x, y, 0);
        }
        let n = self.npcs.len();
        let mut i: usize = 0;
        while i < n
            invariant
                n == self.npcs@.len(),
                i <= n,
                first_npc_at(self.npcs@, room, x, y, 0) == first_npc_at(
                    self.npcs@,
                    room,
                    x,
                    y,
                    i as int,
                ),
            decreases n - i,
        {
            let c = &self.npcs[i];
            if c.room == room && c.x == x && c.y == y {
                proof {
                    assert(self.npcs@.contains(self.npcs@[i as int]));
                }
                return Some(&self.npcs[i]);
            }
            i = i + 1;
        }
        None
    }

    /// The NPC within one tile of the player on the current level, if
    /// any: the first such roster entry in roster order.
    pub fn npc_near_player(&self) -> (r: Option<&Npc>)
        ensures
            match r {
                Some(n) => {
                    &&& (first_adjacent_npc(
                        self.npcs@,
                        self.current,
                        self.player.x,
                        self.player.y,
                        0,
                    ) matches Some(j) && *n == self.npcs@[j])
                    &&& self.npcs@.contains(*n)
                    &&& n.room == self.current
                    &&& vstd::math::abs(n.x as int - self.player.x as int) <= 1
                    &&& vstd::math::abs(n.y as int - self.player.y as int) <= 1
                },
                None => first_adjacent_npc(
                    self.npcs@,
                    self.current,
                    self.player.x,
                    self.player.y,
                    0,
                ) is None,
            },
            (first_adjacent_npc(self.npcs@, self.current, self.player.x, self.player.y, 0)
                is None) == (forall|k: int|
                0 <= k < self.npcs@.len() ==> !((#[trigger] self.npcs@[k]).room == self.current
                    && vstd::math::abs(self.npcs@[k].x as int - self.player.x as int) <= 1
                    && vstd::math::abs(self.npcs@[k].y as int - self.player.y as int) <= 1)),
    {
        proof {
            lemma_first_adjacent_npc_none(
                self.npcs@,
                self.current,
                self.player.x,
                self.player.y,
                0,
            );
        }
        let px = self.player.x;
        let py = self.player.y;
        let n = self.npcs.len();
        let mut i: usize = 0;
        while i < n
            invariant
                n == self.npcs@.len(),
                i <= n,
                px == self.player.x,
                py == self.player.y,
                first_adjacent_npc(self.npcs@, self.current, px, py, 0) == first_adjacent_npc(
                    self.npcs@,
                    self.current,
                    px,
                    py,
                    i as int,
                ),
            decreases n - i,
        {
            let c = &self.npcs[i];
            if c.room == self.current && Self::cheb_dist((c.x, c.y), (px, py)) <= 1 {
                proof {
                    assert(self.npcs@.contains(self.npcs@[i as int]));
                }
                return Some(&self.npcs[i]);
            }
            i = i + 1;
        }
        None
    }
}

/// The first roster index at or after `i` whose NPC stands on `(x, y)`
/// of level `room`.
pub open spec fn first_npc_at(npcs: Seq<Npc>, room: usize, x: i32, y: i32, i: int) -> Option<int>
    decreases npcs.len() - i,
{
    if i < 0 || i >= npcs.len() {
        None
    } else if npcs[i].room == room && npcs[i].x == x && npcs[i].y == y {
        Some(i)
    } else {
        first_npc_at(npcs, room, x, y, i + 1)
    }
}

/// The first roster index at or after `i` whose NPC stands within one
/// tile of `(px, py)` on level `room`.
pub open spec fn first_adjacent_npc(npcs: Seq<Npc>, room: usize, px: i32, py: i32, i: int) -> Option<
    int,
>
    decreases npcs.len() - i,
{
    if i < 0 || i >= npcs.len() {
        None
    } else if npcs[i].room == room && vstd::math::abs(npcs[i].x as int - px as int) <= 1
        && vstd::math::abs(npcs[i].y as int - py as int) <= 1 {
        Some(i)
    } else {
        first_adjacent_npc(npcs, room, px, py, i + 1)
    }
}

/// `first_npc_at` from `i` finds nothing exactly when no entry at or
/// after `i` matches.
pub proof fn lemma_first_npc_at_none(npcs: Seq<Npc>, room: usize, x: i32, y: i32, i: int)
    requires
        0 <= i <= npcs.len(),
    ensures
        (first_npc_at(npcs, room, x, y, i) is None) == (forall|k: int|
            i <= k < npcs.len() ==> !((#[trigger] npcs[k]).room == room && npcs[k].x == x
                && npcs[k].y == y)),
    decreases npcs.len() - i,
{
    if i < npcs.len() {
        lemma_first_npc_at_none(npcs, room, x, y, i + 1);
    }
}

/// One entry of the fixed roster: identity, level, display name and
/// symbol.
pub open spec fn roster_entry(n: Npc, id: NpcId, room: usize, name: Seq<char>, symbol: char) -> bool {
    &&& n.id == id
    &&& n.room == room
    &&& n.name@ == name
    &&& n.symbol == symbol
}

/// The fixed thirteen-character roster: the mayor, Noor, Lamp and three
/// villagers in room one; four weeping villagers and the three
/// adversaries in room two.
pub open spec fn roster_ok(npcs: Seq<Npc>) -> bool {
    &&& npcs.len() == 13
    &&& roster_entry(npcs[0], NpcId::MayorSol, 0, "Mayor Sol"@, 'M')
    &&& roster_entry(npcs[1], NpcId::Noor, 0, "Noor"@, 'N')
    &&& roster_entry(npcs[2], NpcId::Lamp, 0, "Lamp"@, 'L')
    &&& roster_entry(npcs[3], NpcId::Random1, 0, "Villager"@, 'o')
    &&& roster_entry(npcs[4], NpcId::Random2, 0, "Villager"@, 'o')
    &&& roster_entry(npcs[5], NpcId::Random3, 0, "Villager"@, 'o')
    &&& roster_entry(npcs[6], NpcId::Weeping1, 1, "Weeping Villager"@, 'o')
    &&& roster_entry(npcs[7], NpcId::Weeping2, 1, "Weeping Villager"@, 'o')
    &&& roster_entry(npcs[8], NpcId::Weeping3, 1, "Weeping Villager"@, 'o')
    &&& roster_entry(npcs[9], NpcId::Weeping4, 1, "Weeping Villager"@, 'o')
    &&& roster_entry(npcs[10], NpcId::Shab, 1, "Shab"@, 'S')
    &&& roster_entry(npcs[11], NpcId::Krad, 1, "Krad"@, 'K')
    &&& roster_entry(npcs[12], NpcId::Mah, 1, "Mah"@, 'M')
}

/// The placed roster stands on floor tiles, except that each placement
/// falls back to a named cell on a level without any eligible floor: the
/// spawn for room one, the door for room two. (The mayor stands near the
/// spawn by a fixed offset rather than by sampling.)
pub open spec fn roster_on_floor(w: World, spawn0: (i32, i32)) -> bool {
    &&& (forall|k: int|
        1 <= k <= 5 && k < w.npcs@.len() ==> cell_is_floor(
            w.levels@[0].map,
            (#[trigger] w.npcs@[k]).x as int,
            w.npcs@[k].y as int,
        ) || (w.npcs@[k].x, w.npcs@[k].y) == spawn0)
    &&& (forall|k: int|
        6 <= k <= 12 && k < w.npcs@.len() ==> cell_is_floor(
            w.levels@[1].map,
            (#[trigger] w.npcs@[k]).x as int,
            w.npcs@[k].y as int,
        ) || (w.npcs@[k].x, w.npcs@[k].y) == w.levels@[1].door)
}

/// `first_adjacent_npc` from `i` finds nothing exactly when no entry at
/// or after `i` is adjacent.
pub proof fn lemma_first_adjacent_npc_none(npcs: Seq<Npc>, room: usize, px: i32, py: i32, i: int)
    requires
        0 <= i <= npcs.len(),
    ensures
        (first_adjacent_npc(npcs, room, px, py, i) is None) == (forall|k: int|
            i <= k < npcs.len() ==> !((#[trigger] npcs[k]).room == room && vstd::math::abs(
                npcs[k].x as int - px as int,
            ) <= 1 && vstd::math::abs(npcs[k].y as int - py as int) <= 1)),
    decreases npcs.len() - i,
{
    if i < npcs.len() {
        lemma_first_adjacent_npc_none(npcs, room, px, py, i + 1);
    }
}

} // verus!

//! One grid cell's terrain category.

use vstd::prelude::*;

verus! {

/// The terrain of one map cell. Doors and chests are not walkable as
/// terrain: they are interaction targets that must be triggered explicitly.
#[derive(Clone, Copy, Debug, PartialEq, Eq, Structural)]
pub enum Tile {
    Wall,
    Floor,
    Door,
    Chest,
}

/// Whether a combatant may stand on a tile: floor and chest tiles are
/// walkable, walls and doors are not.
pub open spec fn spec_walkable(t: Tile) -> bool {
    t == Tile::Floor || t == Tile::Chest
}

/// Executable form of `spec_walkable`.
pub fn tile_walkable(t: Tile) -> (r: bool)
    ensures
        r == spec_walkable(t),
{
    match t {
        Tile::Floor => true,
        Tile::Chest => true,
        Tile::Wall => false,
        Tile::Door => false,
    }
}

} // verus!

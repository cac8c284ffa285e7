use sunny_days::gamemap::GameMap;
use sunny_days::generator::generate_rooms_and_corridors;
use sunny_days::rng::SeededRng;
use sunny_days::tile::Tile;
use sunny_days::world::World;

#[test]
fn seeded_stream_is_reproducible() {
    let mut a = SeededRng::new(7);
    let mut b = SeededRng::new(7);
    for _ in 0..100 {
        assert_eq!(a.next_u64(), b.next_u64());
    }
    let mut c = SeededRng::new(7);
    for _ in 0..50 {
        let v = c.gen_range(13);
        assert!(v < 13);
    }
}

#[test]
fn generator_is_deterministic() {
    let m1 = generate_rooms_and_corridors(80, 45, 42);
    let m2 = generate_rooms_and_corridors(80, 45, 42);
    assert_eq!(m1.width, m2.width);
    assert_eq!(m1.height, m2.height);
    assert_eq!(m1.tiles, m2.tiles);
    for t in &m1.tiles {
        assert!(*t == Tile::Wall || *t == Tile::Floor);
    }
}

#[test]
fn world_generation_is_deterministic() {
    let w1 = World::new(42, 80, 45);
    let w2 = World::new(42, 80, 45);
    for d in 0..2 {
        assert_eq!(w1.levels[d].map.tiles, w2.levels[d].map.tiles);
        assert_eq!(w1.levels[d].door, w2.levels[d].door);
        assert_eq!(w1.levels[d].chests.len(), w2.levels[d].chests.len());
        for k in 0..w1.levels[d].chests.len() {
            let a = &w1.levels[d].chests[k];
            let b = &w2.levels[d].chests[k];
            assert_eq!((a.x, a.y), (b.x, b.y));
            assert_eq!(a.opened, b.opened);
            assert_eq!(
                a.item.as_ref().map(|c| c.name.clone()),
                b.item.as_ref().map(|c| c.name.clone())
            );
        }
    }
    assert_eq!((w1.player.x, w1.player.y), (w2.player.x, w2.player.y));
}

#[test]
fn scenario_seed_42_map_80_by_45() {
    let w = World::new(42, 80, 45);
    let lvl = &w.levels[0];
    // At least one room was placed: there is floor, and the spawn is the
    // first floor tile in scan order.
    let first_floor = lvl
        .map
        .tiles
        .iter()
        .position(|t| *t == Tile::Floor)
        .expect("a room must produce floor");
    let fx = (first_floor % lvl.map.width) as i32;
    let fy = (first_floor / lvl.map.width) as i32;
    assert_eq!((w.player.x, w.player.y), (fx, fy));
    // Exactly one door.
    let doors = lvl.map.tiles.iter().filter(|t| **t == Tile::Door).count();
    assert_eq!(doors, 1);
    let (dx, dy) = lvl.door;
    assert!(lvl.map.get(dx as usize, dy as usize) == Tile::Door);
    // The door is distinct from the spawn and not walkable.
    assert_ne!((dx, dy), (w.player.x, w.player.y));
    assert!(!lvl.map.is_walkable(dx as usize, dy as usize));
    // At most three chests.
    assert!(lvl.chests.len() <= 3);
    let chest_tiles = lvl.map.tiles.iter().filter(|t| **t == Tile::Chest).count();
    assert_eq!(chest_tiles, lvl.chests.len());
    // The fixed NPC roster is placed.
    assert_eq!(w.npcs.len(), 13);
}

#[test]
fn map_queries() {
    let mut m = GameMap::new(5, 4, Tile::Wall);
    assert_eq!(m.width, 5);
    assert_eq!(m.height, 4);
    assert_eq!(m.tiles.len(), 20);
    assert!(m.find_first_floor().is_none());
    m.set(2, 1, Tile::Floor);
    assert!(m.get(2, 1) == Tile::Floor);
    assert_eq!(m.find_first_floor(), Some((2, 1)));
    assert_eq!(m.idx(2, 1), 7);
    assert!(m.in_bounds(4, 3));
    assert!(!m.in_bounds(5, 3));
    assert!(!m.in_bounds(-1, 0));
    assert!(m.is_walkable(2, 1));
    assert!(!m.is_walkable(0, 0));
    m.set(3, 1, Tile::Chest);
    assert!(m.is_walkable(3, 1));
    m.set(3, 2, Tile::Door);
    assert!(!m.is_walkable(3, 2));
}

#[test]
fn number_rendering() {
    assert_eq!(sunny_days::strutil::u64_to_string(0), "0");
    assert_eq!(sunny_days::strutil::u64_to_string(1234), "1234");
    assert_eq!(sunny_days::strutil::i32_to_string(-56), "-56");
    assert_eq!(sunny_days::strutil::i32_to_string(7), "7");
    assert_eq!(sunny_days::strutil::fmt_bonus(5), "+5");
    assert_eq!(sunny_days::strutil::fmt_bonus(0), "+0");
    assert_eq!(sunny_days::strutil::fmt_bonus(-3), "-3");
    assert_eq!(World::fmt_hp_delta(3), "+3 HP");
    assert_eq!(World::fmt_hp_delta(-2), "-2 HP");
}

#[test]
fn chance_roll_is_a_percentage() {
    for _ in 0..100 {
        assert!(sunny_days::chance::roll_percent() < 100);
    }
}

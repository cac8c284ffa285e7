use sunny_days::entity::{Consumable, Equipment, EquipSlot, Inventory, InvSelection, InvTab, Player};
use sunny_days::gamemap::GameMap;
use sunny_days::tile::Tile;

fn cons(name: &str, heal: i32, atk: i32, def: i32) -> Consumable {
    Consumable { name: String::from(name), heal, atk_bonus: atk, def_bonus: def }
}

fn cursor_ok(inv: &Inventory) {
    assert!(inv.weapon_cursor <= 1);
    if inv.consumables.is_empty() {
        assert_eq!(inv.consumable_cursor, 0);
    } else {
        assert!(inv.consumable_cursor < inv.consumables.len());
    }
    if inv.backpack.is_empty() {
        assert_eq!(inv.backpack_cursor, 0);
    } else {
        assert!(inv.backpack_cursor < inv.backpack.len());
    }
}

#[test]
fn default_loadout_is_empty() {
    let inv = Inventory::default_loadout();
    assert!(inv.sword.is_none());
    assert!(inv.shield.is_none());
    assert!(inv.consumables.is_empty());
    assert!(inv.backpack.is_empty());
    assert!(inv.tab == InvTab::Weapons);
    cursor_ok(&inv);
}

#[test]
fn tab_cycle_returns_after_three() {
    let mut inv = Inventory::default_loadout();
    let t0 = inv.tab;
    inv.toggle_tab();
    assert!(inv.tab == InvTab::Consumables);
    inv.toggle_tab();
    assert!(inv.tab == InvTab::Backpack);
    inv.toggle_tab();
    assert!(inv.tab == t0);
}

#[test]
fn cursor_wraps_and_stays_in_bounds() {
    let mut inv = Inventory::default_loadout();
    inv.consumables.push(cons("a", 1, 0, 0));
    inv.consumables.push(cons("b", 1, 0, 0));
    inv.consumables.push(cons("c", 1, 0, 0));
    inv.tab = InvTab::Consumables;
    assert_eq!(inv.consumable_cursor, 0);
    inv.move_cursor(-1);
    assert_eq!(inv.consumable_cursor, 2);
    inv.move_cursor(1);
    assert_eq!(inv.consumable_cursor, 0);
    inv.move_cursor(1);
    assert_eq!(inv.consumable_cursor, 1);
    cursor_ok(&inv);
    // Weapons tab wraps over its two slots.
    inv.tab = InvTab::Weapons;
    inv.move_cursor(1);
    assert_eq!(inv.weapon_cursor, 1);
    inv.move_cursor(1);
    assert_eq!(inv.weapon_cursor, 0);
    cursor_ok(&inv);
    // An empty list pins its cursor at zero.
    inv.tab = InvTab::Backpack;
    inv.move_cursor(1);
    assert_eq!(inv.backpack_cursor, 0);
    cursor_ok(&inv);
}

#[test]
fn cursor_stays_in_bounds_after_removal() {
    let mut inv = Inventory::default_loadout();
    inv.consumables.push(cons("a", 1, 0, 0));
    inv.consumables.push(cons("b", 2, 0, 0));
    inv.tab = InvTab::Consumables;
    inv.move_cursor(1);
    assert_eq!(inv.consumable_cursor, 1);
    let taken = inv.take_selected_consumable().expect("item under cursor");
    assert_eq!(taken.name, "b");
    cursor_ok(&inv);
    let taken = inv.take_selected_consumable().expect("item under cursor");
    assert_eq!(taken.name, "a");
    cursor_ok(&inv);
    assert!(inv.take_selected_consumable().is_none());
    cursor_ok(&inv);
}

#[test]
fn selection_follows_tab_and_cursor() {
    let mut inv = Inventory::default_loadout();
    assert!(inv.selection() == InvSelection::SwordSlot);
    inv.weapon_cursor = 1;
    assert!(inv.selection() == InvSelection::ShieldSlot);
    inv.tab = InvTab::Consumables;
    assert!(inv.selection() == InvSelection::Nothing);
    inv.consumables.push(cons("a", 1, 0, 0));
    assert!(inv.selection() == InvSelection::Consumable(0));
    inv.tab = InvTab::Backpack;
    assert!(inv.selection() == InvSelection::Nothing);
}

#[test]
fn buffs_expire_by_the_clock() {
    let mut p = Player::new(0, 0);
    assert_eq!(p.attack(0), 10);
    assert_eq!(p.defense(0), 8);
    assert_eq!(p.speed(0), 5);
    p.add_temp_buff(2, 3, 1, 30_000, 1_000);
    assert_eq!(p.attack(1_000), 12);
    assert_eq!(p.defense(1_000), 11);
    assert_eq!(p.speed(1_000), 6);
    // Expiry is exclusive: at exactly 31 000 ms the buff is gone.
    assert_eq!(p.attack(31_000), 10);
    p.purge_expired_buffs(31_000);
    assert!(p.buffs.is_empty());
    // A buff with no effect is not recorded.
    p.add_temp_buff(0, 0, 0, 30_000, 0);
    assert!(p.buffs.is_empty());
}

#[test]
fn equipment_bonuses_stack() {
    let mut p = Player::new(0, 0);
    p.equip_sword(Equipment {
        name: String::from("s"),
        slot: EquipSlot::Sword,
        hp_bonus: 0,
        atk_bonus: 3,
        def_bonus: 0,
        speed_bonus: 3,
    });
    p.equip_shield(Equipment {
        name: String::from("h"),
        slot: EquipSlot::Shield,
        hp_bonus: 0,
        atk_bonus: 0,
        def_bonus: 3,
        speed_bonus: -2,
    });
    assert_eq!(p.attack(0), 13);
    assert_eq!(p.defense(0), 11);
    assert_eq!(p.speed(0), 6);
}

#[test]
fn try_move_respects_walls_and_bounds() {
    let mut m = GameMap::new(4, 4, Tile::Wall);
    m.set(1, 1, Tile::Floor);
    m.set(2, 1, Tile::Floor);
    let mut p = Player::new(1, 1);
    p.try_move(1, 0, &m);
    assert_eq!((p.x, p.y), (2, 1));
    p.try_move(1, 0, &m);
    assert_eq!((p.x, p.y), (2, 1));
    p.try_move(0, -1, &m);
    assert_eq!((p.x, p.y), (2, 1));
}

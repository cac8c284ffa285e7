use sunny_days::action::Action;
use sunny_days::entity::{Consumable, Equipment, EquipSlot, InvTab};
use sunny_days::world::{BattleSession, GameState, NpcId, World};

fn playing_world() -> World {
    let mut w = World::new(42, 80, 45);
    assert!(w.apply_action(Action::Confirm));
    assert!(w.state == GameState::Intro);
    assert!(w.apply_action(Action::Confirm));
    assert!(w.state == GameState::Playing);
    w
}

fn session(hp: i32, atk: i32, def: i32, spd: i32) -> BattleSession {
    BattleSession {
        enemy_id: NpcId::Shab,
        enemy_name: String::from("Shab"),
        enemy_hp: hp,
        enemy_max_hp: hp,
        enemy_atk: atk,
        enemy_def: def,
        enemy_speed: spd,
        penalty_mode: false,
        player_initiated: false,
    }
}

#[test]
fn quit_stops_in_every_phase() {
    let mut w = World::new(1, 80, 45);
    assert!(!w.apply_action(Action::Quit));
    let mut w = playing_world();
    assert!(!w.apply_action(Action::Quit));
    // Even with the battle inventory overlay open, Quit stops the game.
    let mut w = playing_world();
    w.state = GameState::Battle;
    w.battle = Some(session(100, 3, 0, 0));
    w.apply_action(Action::BattleOption(2, false));
    assert!(w.inventory_open);
    assert!(!w.apply_action(Action::Quit));
}

#[test]
fn toggling_inventory_twice_restores_state() {
    let mut w = playing_world();
    assert!(!w.inventory_open);
    w.apply_action(Action::ToggleInventory);
    assert!(w.inventory_open);
    assert!(!w.stats_open);
    w.apply_action(Action::ToggleInventory);
    assert!(!w.inventory_open);
    // Stats and inventory overlays exclude each other.
    w.apply_action(Action::ToggleStats);
    assert!(w.stats_open);
    w.apply_action(Action::ToggleInventory);
    assert!(w.inventory_open);
    assert!(!w.stats_open);
    w.apply_action(Action::ToggleInventory);
}

#[test]
fn toggling_tab_three_times_restores_tab() {
    let mut w = playing_world();
    w.apply_action(Action::ToggleInventory);
    let t0 = w.player.inventory.tab;
    w.apply_action(Action::ToggleInvTab);
    assert!(w.player.inventory.tab != t0);
    w.apply_action(Action::ToggleInvTab);
    w.apply_action(Action::ToggleInvTab);
    assert!(w.player.inventory.tab == t0);
    // With the inventory closed the tab does not move.
    w.apply_action(Action::ToggleInventory);
    w.apply_action(Action::ToggleInvTab);
    assert!(w.player.inventory.tab == t0);
}

#[test]
fn movement_is_rejected_while_an_overlay_is_open() {
    let mut w = playing_world();
    let before = (w.player.x, w.player.y);
    w.apply_action(Action::ToggleInventory);
    w.apply_action(Action::Move(1, 0));
    assert_eq!((w.player.x, w.player.y), before);
}

#[test]
fn scenario_damage_formula() {
    // Base attack 10, no equipment, no buffs, enemy defense 0: each
    // non-deflected hit deals floor(10 * 1.2) = 12 damage.
    let mut w = playing_world();
    assert_eq!(w.player.attack(w.clock_ms), 10);
    w.state = GameState::Battle;
    w.battle = Some(session(100, 0, 0, 0));
    w.apply_battle_turn(1, false, 99, 99, 99);
    let b = w.battle.as_ref().expect("battle continues");
    assert_eq!(b.enemy_hp, 88);
    assert_eq!(w.player.hp, 30);
    assert_eq!(World::calc_damage(10), 12);
    assert_eq!(World::calc_damage(0), 0);
    assert_eq!(World::calc_damage(-10), -12);
}

#[test]
fn fight_turn_is_monotone_and_clears_on_victory() {
    let mut w = playing_world();
    w.state = GameState::Battle;
    w.battle = Some(session(10, 3, 0, 4));
    let hp_before = w.player.hp;
    // Player speed 5 beats enemy speed 4; 12 damage fells the 10 hp foe
    // before it can strike back.
    w.apply_battle_turn(1, false, 99, 99, 99);
    assert!(w.battle.is_none());
    assert!(w.player.hp <= hp_before);
    assert!(w.state == GameState::Dialogue);
    assert!(w.shab_defeated);
}

#[test]
fn penalty_turn_lets_the_enemy_strike_first() {
    let mut w = playing_world();
    w.state = GameState::Battle;
    w.battle = Some(session(100, 10, 0, 0));
    // Penalty mode overrides initiative; the enemy's 12 damage lands
    // (roll 99 never deflects against defense 8 => chance 16%).
    w.apply_battle_turn(1, true, 99, 99, 99);
    assert_eq!(w.player.hp, 18);
    let b = w.battle.as_ref().expect("battle continues");
    assert_eq!(b.enemy_hp, 88);
    // The penalty is a one-turn-only override: the surviving session does
    // not carry it, so the faster player strikes first again.
    assert!(!b.penalty_mode);
    w.apply_battle_turn(1, false, 99, 99, 99);
    let b = w.battle.as_ref().expect("battle continues");
    assert_eq!(b.enemy_hp, 76);
    assert_eq!(w.player.hp, 6);
}

#[test]
fn deflection_fully_negates_a_hit() {
    let mut w = playing_world();
    w.state = GameState::Battle;
    w.battle = Some(session(100, 10, 0, 100));
    // Enemy is faster; roll 15 < 2 * defense 8 deflects its hit.
    w.apply_battle_turn(1, false, 15, 99, 99);
    assert_eq!(w.player.hp, 30);
    let b = w.battle.as_ref().expect("battle continues");
    assert_eq!(b.enemy_hp, 88);
}

#[test]
fn flee_succeeds_on_a_low_roll_and_clears_the_battle() {
    let mut w = playing_world();
    w.state = GameState::Battle;
    w.battle = Some(session(100, 3, 0, 0));
    w.apply_battle_turn(3, false, 99, 99, 10);
    assert!(w.battle.is_none());
    assert!(w.state == GameState::Playing);
    assert_eq!(w.player.hp, 30);
}

#[test]
fn flee_is_denied_when_the_player_started_the_fight() {
    let mut w = playing_world();
    w.state = GameState::Battle;
    let mut b = session(100, 10, 0, 0);
    b.player_initiated = true;
    w.battle = Some(b);
    w.apply_battle_turn(3, false, 99, 99, 10);
    // The enemy attacks instead of letting the player flee.
    assert!(w.battle.is_some());
    assert_eq!(w.player.hp, 18);
}

#[test]
fn scenario_consumable_heal_and_buff() {
    // A consumable with heal -2 and defense bonus 5 used at 10/30 leaves
    // 8/30 and a 30-second +5 defense buff, inactive after 31 simulated
    // seconds.
    let mut w = playing_world();
    w.player.hp = 10;
    w.clock_ms = 0;
    w.player.inventory.consumables.push(Consumable {
        name: String::from("Frozen tears"),
        heal: -2,
        atk_bonus: 0,
        def_bonus: 5,
    });
    w.player.inventory.tab = InvTab::Consumables;
    w.inventory_open = true;
    w.apply_action(Action::UseConsumable);
    assert_eq!(w.player.hp, 8);
    assert_eq!(w.player.max_hp, 30);
    assert_eq!(w.player.defense(0), 13);
    assert_eq!(w.player.defense(31_000), 8);
}

#[test]
fn scenario_door_needs_sword_and_shield() {
    let mut w = playing_world();
    // Clear the roster so the interaction reaches the door check.
    w.npcs = Vec::new();
    let door = w.levels[0].door;
    // Stand next to the door.
    let (px, py) = if door.0 + 1 < w.levels[0].map.width as i32 {
        (door.0 + 1, door.1)
    } else {
        (door.0 - 1, door.1)
    };
    w.player.x = px;
    w.player.y = py;
    w.apply_action(Action::Interact);
    assert_eq!(w.current, 0);
    assert_eq!((w.player.x, w.player.y), (px, py));
    assert_eq!(
        w.logs.back().map(|s| s.as_str()),
        Some("Talk to the mayor and come back")
    );
    // With both sword and shield the door works and relocates the player
    // next to the second room's door.
    w.player.equip_sword(Equipment {
        name: String::from("Basic Sword"),
        slot: EquipSlot::Sword,
        hp_bonus: 0,
        atk_bonus: 3,
        def_bonus: 0,
        speed_bonus: 3,
    });
    w.player.equip_shield(Equipment {
        name: String::from("Basic Shield"),
        slot: EquipSlot::Shield,
        hp_bonus: 0,
        atk_bonus: 0,
        def_bonus: 3,
        speed_bonus: -2,
    });
    w.apply_action(Action::Interact);
    assert_eq!(w.current, 1);
    let door2 = w.levels[1].door;
    let dx = (w.player.x - door2.0).abs();
    let dy = (w.player.y - door2.1).abs();
    assert!(dx <= 1 && dy <= 1);
}

#[test]
fn mayor_choice_sets_the_quest_flag_once() {
    let mut w = playing_world();
    w.start_dialogue_for(NpcId::MayorSol, String::from("Mayor Sol"));
    assert!(w.state == GameState::Dialogue);
    assert!(!w.mayor_done);
    // An unrecognized character is ignored and the session stays open.
    w.apply_action(Action::Choice('x'));
    assert!(w.state == GameState::Dialogue);
    assert!(!w.mayor_done);
    w.apply_action(Action::Choice('y'));
    assert!(w.mayor_done);
    assert!(w.state == GameState::Dialogue);
    // Closing the rewritten single page returns to free roam.
    w.apply_action(Action::Confirm);
    assert!(w.state == GameState::Playing);
}

#[test]
fn noor_choice_equips_one_starter_item() {
    let mut w = playing_world();
    w.start_dialogue_for(NpcId::Noor, String::from("Noor"));
    w.apply_action(Action::Choice('a'));
    assert!(w.noor_done);
    let sword = w.player.inventory.sword.as_ref().expect("sword equipped");
    assert_eq!(sword.name, "Basic Sword");
    assert!(w.player.inventory.shield.is_none());
}

#[test]
fn closing_an_adversary_dialogue_starts_the_battle() {
    let mut w = playing_world();
    w.start_dialogue_for(NpcId::Shab, String::from("Shab"));
    w.apply_action(Action::Confirm);
    assert!(w.state == GameState::Dialogue);
    w.apply_action(Action::Confirm);
    assert!(w.state == GameState::Battle);
    let b = w.battle.as_ref().expect("battle started");
    assert!(b.enemy_id == NpcId::Shab);
    assert_eq!(b.enemy_hp, 10);
    assert_eq!(b.enemy_atk, 3);
    assert_eq!(b.enemy_speed, 4);
    assert!(!b.player_initiated);
}

#[test]
fn battle_option_two_opens_the_consumables_overlay() {
    let mut w = playing_world();
    w.state = GameState::Battle;
    w.battle = Some(session(100, 3, 0, 0));
    w.apply_action(Action::BattleOption(2, false));
    assert!(w.inventory_open);
    assert!(w.player.inventory.tab == InvTab::Consumables);
    assert!(w.state == GameState::Battle);
    // The inventory key closes the overlay again.
    w.apply_action(Action::ToggleInventory);
    assert!(!w.inventory_open);
    assert!(w.state == GameState::Battle);
}

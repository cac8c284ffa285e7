//! Free-roam orchestration: overlays, item use, chest opening, doors and
//! room transitions.

use vstd::prelude::*;

use crate::action::Action;
use crate::battle::turn_hps;
use crate::entity::{opt_hp, Consumable, Equipment, EquipSlot, Inventory, InvSelection, Player};
use crate::num::{add_clamped, clamp_stat, min_i32, sub_clamped};
use crate::strutil::fmt_bonus;
use crate::tile::Tile;
use crate::world::{AwaitingChoice, BattleSession, Chest, DialogueSession, GameState, NpcId, World};

use vstd::string::StrSliceExecFns;
use vstd::string::StringExecFns;

verus! {

/// The first unopened chest at `(x, y)` among the first `n` chests.
pub open spec fn first_chest_at(chests: Seq<Chest>, x: i32, y: i32, n: int) -> Option<int>
    decreases n,
{
    if n <= 0 {
        None
    } else {
        match first_chest_at(chests, x, y, n - 1) {
            Some(j) => Some(j),
            None => {
                if !chests[n - 1].opened && chests[n - 1].x == x && chests[n - 1].y == y {
                    Some(n - 1)
                } else {
                    None
                }
            },
        }
    }
}

/// The chest that `first_chest_at` finds is unopened and stands at the
/// sought position.
pub proof fn lemma_first_chest_at_props(chests: Seq<Chest>, x: i32, y: i32, n: int)
    ensures
        match first_chest_at(chests, x, y, n) {
            Some(j) => {
                &&& 0 <= j < n
                &&& !chests[j].opened
                &&& chests[j].x == x
                &&& chests[j].y == y
            },
            None => true,
        },
    decreases n,
{
    if n > 0 {
        lemma_first_chest_at_props(chests, x, y, n - 1);
    }
}

/// The display title of an inventory tab.
pub open spec fn tab_title(t: crate::entity::InvTab) -> Seq<char> {
    match t {
        crate::entity::InvTab::Weapons => "Weapons"@,
        crate::entity::InvTab::Consumables => "Consumables"@,
        crate::entity::InvTab::Backpack => "Backpack"@,
    }
}

/// The log line announcing a consumable's use: its name, the signed heal
/// amount, and the timed bonuses it installs.
pub open spec fn used_line(item: Consumable) -> Seq<char> {
    "Used "@ + item.name@ + " ("@ + crate::strutil::signed_chars(item.heal as int) + " HP"@ + (
    if item.atk_bonus != 0 {
        ", "@ + crate::strutil::signed_chars(item.atk_bonus as int) + " ATK/30sec"@
    } else {
        Seq::<char>::empty()
    }) + (if item.def_bonus != 0 {
        ", "@ + crate::strutil::signed_chars(item.def_bonus as int) + " DEF/30sec"@
    } else {
        Seq::<char>::empty()
    }) + ")."@
}

/// The spawn cell after a room transition: the first floor neighbor of
/// the new level's door in row-major scan order, or the door itself when
/// no floor neighbor exists.
pub open spec fn door_side_spawn(m: crate::gamemap::GameMap, door: (i32, i32)) -> (int, int) {
    let dx = door.0 as int;
    let dy = door.1 as int;
    if crate::world::cell_is_floor(m, dx - 1, dy - 1) {
        (dx - 1, dy - 1)
    } else if crate::world::cell_is_floor(m, dx, dy - 1) {
        (dx, dy - 1)
    } else if crate::world::cell_is_floor(m, dx + 1, dy - 1) {
        (dx + 1, dy - 1)
    } else if crate::world::cell_is_floor(m, dx - 1, dy) {
        (dx - 1, dy)
    } else if crate::world::cell_is_floor(m, dx + 1, dy) {
        (dx + 1, dy)
    } else if crate::world::cell_is_floor(m, dx - 1, dy + 1) {
        (dx - 1, dy + 1)
    } else if crate::world::cell_is_floor(m, dx, dy + 1) {
        (dx, dy + 1)
    } else if crate::world::cell_is_floor(m, dx + 1, dy + 1) {
        (dx + 1, dy + 1)
    } else {
        (dx, dy)
    }
}

impl World {
    /// Render a hit-point delta with an explicit sign and unit.
    pub fn fmt_hp_delta(delta: i32) -> (r: String)
        ensures
            r@ == crate::strutil::signed_chars(delta as int) + " HP"@,
    {
        let mut s = fmt_bonus(delta);
        s.append(" HP");
        s
    }

    /// Open or close the inventory overlay; opening it closes the stats
    /// overlay.
    pub fn toggle_inventory(&mut self)
        requires
            old(self).wf(),
        ensures
            final(self).wf(),
            final(self).inventory_open == !old(self).inventory_open,
            final(self).stats_open == (if !old(self).inventory_open {
                false
            } else {
                old(self).stats_open
            }),
            *final(self) == (World {
                inventory_open: final(self).inventory_open,
                stats_open: final(self).stats_open,
                logs: final(self).logs,
                ..*old(self)
            }),
            crate::world::logged(
                old(self).logs@,
                final(self).logs@,
                if !old(self).inventory_open {
                    "Inventory opened."@
                } else {
                    "Inventory closed."@
                },
            ),
    {
        self.inventory_open = !self.inventory_open;
        if self.inventory_open {
            self.stats_open = false;
            self.push_log(String::from_str("Inventory opened."));
        } else {
            self.push_log(String::from_str("Inventory closed."));
        }
    }

    /// Open or close the stats overlay; opening it closes the inventory
    /// overlay.
    pub fn toggle_stats(&mut self)
        requires
            old(self).wf(),
        ensures
            final(self).wf(),
            final(self).stats_open == !old(self).stats_open,
            final(self).inventory_open == (if !old(self).stats_open {
                false
            } else {
                old(self).inventory_open
            }),
            *final(self) == (World {
                inventory_open: final(self).inventory_open,
                stats_open: final(self).stats_open,
                logs: final(self).logs,
                ..*old(self)
            }),
            crate::world::logged(
                old(self).logs@,
                final(self).logs@,
                if !old(self).stats_open {
                    "Stats opened."@
                } else {
                    "Stats closed."@
                },
            ),
    {
        self.stats_open = !self.stats_open;
        if self.stats_open {
            self.inventory_open = false;
            self.push_log(String::from_str("Stats opened."));
        } else {
            self.push_log(String::from_str("Stats closed."));
        }
    }

    /// Rotate the inventory tab and note the new tab in the log.
    pub fn toggle_inventory_tab(&mut self)
        requires
            old(self).wf(),
        ensures
            final(self).wf(),
            final(self).player.inventory == (Inventory {
                tab: crate::entity::next_tab(old(self).player.inventory.tab),
                ..old(self).player.inventory
            }),
            final(self).player == (Player {
                inventory: final(self).player.inventory,
                ..old(self).player
            }),
            *final(self) == (World {
                player: final(self).player,
                logs: final(self).logs,
                ..*old(self)
            }),
            crate::world::logged(
                old(self).logs@,
                final(self).logs@,
                "Inventory tab: "@ + tab_title(crate::entity::next_tab(old(self).player.inventory.tab)),
            ),
    {
        self.player.inventory.toggle_tab();
        let name: &str = match self.player.inventory.tab {
            crate::entity::InvTab::Weapons => "Weapons",
            crate::entity::InvTab::Consumables => "Consumables",
            crate::entity::InvTab::Backpack => "Backpack",
        };
        let mut m = String::from_str("Inventory tab: ");
        m.append(name);
        self.push_log(m);
    }

    /// Return a hovered slot item to the backpack, removing its
    /// hit-point bonus.
    fn unequip_slot(&mut self, sword: bool)
        requires
            old(self).wf(),
        ensures
            final(self).wf(),
            *final(self) == (World {
                player: final(self).player,
                logs: final(self).logs,
                ..*old(self)
            }),
            ({
                let inv = old(self).player.inventory;
                let p = old(self).player;
                let slot = if sword {
                    inv.sword
                } else {
                    inv.shield
                };
                match slot {
                    Some(eq) => {
                        &&& (if sword {
                            final(self).player.inventory.sword is None
                                && final(self).player.inventory.shield == inv.shield
                        } else {
                            final(self).player.inventory.shield is None
                                && final(self).player.inventory.sword == inv.sword
                        })
                        &&& final(self).player.inventory.backpack@ == inv.backpack@.push(eq)
                        &&& final(self).player.inventory.consumables == inv.consumables
                        &&& final(self).player.max_hp as int == clamp_stat(p.max_hp - eq.hp_bonus)
                        &&& final(self).player.hp as int == vstd::math::min(
                            p.hp as int,
                            final(self).player.max_hp as int,
                        )
                        &&& final(self).player.buffs == p.buffs
                        &&& final(self).player.x == p.x && final(self).player.y == p.y
                        &&& crate::world::logged(
                            old(self).logs@,
                            final(self).logs@,
                            "Unequipped "@ + eq.name@ + "."@,
                        )
                    },
                    None => final(self).player == p && crate::world::logged(
                        old(self).logs@,
                        final(self).logs@,
                        if sword {
                            "No sword equipped."@
                        } else {
                            "No shield equipped."@
                        },
                    ),
                }
            }),
    {
        let eq_opt = if sword {
            self.player.inventory.sword.take()
        } else {
            self.player.inventory.shield.take()
        };
        if let Some(eq) = eq_opt {
            self.player.max_hp = sub_clamped(self.player.max_hp, eq.hp_bonus);
            self.player.hp = min_i32(self.player.hp, self.player.max_hp);
            let mut m = String::from_str("Unequipped ");
            m.append(eq.name.as_str());
            m.append(".");
            self.player.inventory.backpack.push(eq);
            self.push_log(m);
        } else if sword {
            self.push_log(String::from_str("No sword equipped."));
        } else {
            self.push_log(String::from_str("No shield equipped."));
        }
    }

    /// Use the consumable under the cursor: heal (clamped to the
    /// maximum), and install a thirty-second buff when the item carries a
    /// nonzero bonus.
    fn use_selected_consumable_now(&mut self)
        requires
            old(self).wf(),
            old(self).player.inventory.tab == crate::entity::InvTab::Consumables,
            old(self).player.inventory.consumables@.len() > 0,
        ensures
            final(self).wf(),
            *final(self) == (World {
                player: final(self).player,
                logs: final(self).logs,
                ..*old(self)
            }),
            ({
                let inv = old(self).player.inventory;
                let p = old(self).player;
                let i = inv.consumable_cursor as int;
                let item = inv.consumables@[i];
                &&& final(self).player.inventory.consumables@ == inv.consumables@.remove(i)
                &&& final(self).player.inventory.sword == inv.sword
                &&& final(self).player.inventory.shield == inv.shield
                &&& final(self).player.inventory.backpack == inv.backpack
                &&& final(self).player.hp as int == vstd::math::min(
                    clamp_stat(p.hp + item.heal),
                    p.max_hp as int,
                )
                &&& final(self).player.max_hp == p.max_hp
                &&& (item.atk_bonus != 0 || item.def_bonus != 0 ==> final(self).player.buffs@
                    == p.buffs@.push(
                    crate::entity::TempBuff {
                        atk_bonus: item.atk_bonus,
                        def_bonus: item.def_bonus,
                        speed_bonus: 0,
                        expires_at_ms: if old(self).clock_ms + 30000 > u64::MAX {
                            u64::MAX
                        } else {
                            (old(self).clock_ms + 30000) as u64
                        },
                    },
                ))
                &&& (item.atk_bonus == 0 && item.def_bonus == 0 ==> final(self).player.buffs@
                    == p.buffs@)
                &&& final(self).player.x == p.x && final(self).player.y == p.y
                &&& crate::world::logged(old(self).logs@, final(self).logs@, used_line(item))
            }),
    {
        let item = self.player.inventory.take_selected_consumable().unwrap();
        let ghost item_g = item;
        let healed_to = min_i32(add_clamped(self.player.hp, item.heal), self.player.max_hp);
        self.player.hp = healed_to;
        let clock = self.clock_ms;
        if item.atk_bonus != 0 || item.def_bonus != 0 {
            self.player.add_temp_buff(item.atk_bonus, item.def_bonus, 0, 30000, clock);
        }
        let mut m = String::from_str("Used ");
        m.append(item.name.as_str());
        m.append(" (");
        m.append(fmt_bonus(item.heal).as_str());
        m.append(" HP");
        if item.atk_bonus != 0 {
            m.append(", ");
            m.append(fmt_bonus(item.atk_bonus).as_str());
            m.append(" ATK/30sec");
        }
        if item.def_bonus != 0 {
            m.append(", ");
            m.append(fmt_bonus(item.def_bonus).as_str());
            m.append(" DEF/30sec");
        }
        m.append(").");
        proof {
            assert(m@ =~= used_line(item_g));
        }
        self.push_log(m);
    }

    /// Equip backpack item `i` into its slot, swapping out whatever the
    /// slot held, and adjust the maximum hit points by the difference of
    /// the two items' bonuses.
    #[verifier::rlimit(100)]
    fn equip_from_backpack(&mut self, i: usize)
        requires
            old(self).wf(),
            i < old(self).player.inventory.backpack@.len(),
        ensures
            final(self).wf(),
            *final(self) == (World {
                player: final(self).player,
                logs: final(self).logs,
                ..*old(self)
            }),
            ({
                let inv = old(self).player.inventory;
                let p = old(self).player;
                let eq = inv.backpack@[i as int];
                let displaced = if eq.slot == EquipSlot::Sword {
                    inv.sword
                } else {
                    inv.shield
                };
                let bp2 = match displaced {
                    Some(o) => inv.backpack@.remove(i as int).push(o),
                    None => inv.backpack@.remove(i as int),
                };
                &&& final(self).player.inventory.backpack@ == bp2
                &&& final(self).player.inventory.consumables == inv.consumables
                &&& (eq.slot == EquipSlot::Sword ==> final(self).player.inventory.sword == Some(eq)
                    && final(self).player.inventory.shield == inv.shield)
                &&& (eq.slot == EquipSlot::Shield ==> final(self).player.inventory.shield == Some(
                    eq,
                ) && final(self).player.inventory.sword == inv.sword)
                &&& final(self).player.max_hp as int == clamp_stat(
                    clamp_stat(p.max_hp + eq.hp_bonus) - opt_hp(displaced),
                )
                &&& final(self).player.hp as int == vstd::math::min(
                    p.hp as int,
                    final(self).player.max_hp as int,
                )
                &&& final(self).player.buffs == p.buffs
                &&& final(self).player.x == p.x && final(self).player.y == p.y
                &&& crate::world::logged(
                    old(self).logs@,
                    final(self).logs@,
                    (if eq.slot == EquipSlot::Sword {
                        "Equipped sword: "@
                    } else {
                        "Equipped shield: "@
                    }) + eq.name@ + "."@,
                )
            }),
    {
        let eq = self.player.inventory.backpack.remove(i);
        self.player.max_hp = add_clamped(self.player.max_hp, eq.hp_bonus);
        let mut m: String;
        match eq.slot {
            EquipSlot::Sword => {
                if let Some(old_eq) = self.player.inventory.sword.take() {
                    self.player.max_hp = sub_clamped(self.player.max_hp, old_eq.hp_bonus);
                    self.player.inventory.backpack.push(old_eq);
                }
                m = String::from_str("Equipped sword: ");
                m.append(eq.name.as_str());
                m.append(".");
                self.player.inventory.sword = Some(eq);
            },
            EquipSlot::Shield => {
                if let Some(old_eq) = self.player.inventory.shield.take() {
                    self.player.max_hp = sub_clamped(self.player.max_hp, old_eq.hp_bonus);
                    self.player.inventory.backpack.push(old_eq);
                }
                m = String::from_str("Equipped shield: ");
                m.append(eq.name.as_str());
                m.append(".");
                self.player.inventory.shield = Some(eq);
            },
        }
        self.player.hp = min_i32(self.player.hp, self.player.max_hp);
        let bl = self.player.inventory.backpack.len();
        if bl == 0 {
            self.player.inventory.backpack_cursor = 0;
        } else if self.player.inventory.backpack_cursor >= bl {
            self.player.inventory.backpack_cursor = bl - 1;
        }
        self.push_log(m);
    }

    /// Act on the inventory selection: unequip a hovered slot into the
    /// backpack, use the selected consumable, or equip a backpack item
    /// into its slot (swapping out the displaced item). Equipping or
    /// removing gear adjusts the maximum hit points by the item's bonus
    /// and clamps current hit points down to the new maximum.
    pub fn use_or_unequip_or_equip(&mut self)
        requires
            old(self).wf(),
        ensures
            final(self).wf(),
            *final(self) == (World {
                player: final(self).player,
                logs: final(self).logs,
                ..*old(self)
            }),
            final(self).player.x == old(self).player.x,
            final(self).player.y == old(self).player.y,
            ({
                let inv = old(self).player.inventory;
                let p = old(self).player;
                match inv.spec_selection() {
                    InvSelection::SwordSlot => {
                        match inv.sword {
                            Some(eq) => {
                                &&& final(self).player.inventory.sword is None
                                &&& final(self).player.inventory.shield == inv.shield
                                &&& final(self).player.inventory.consumables == inv.consumables
                                &&& final(self).player.inventory.backpack@ == inv.backpack@.push(
                                    eq,
                                )
                                &&& final(self).player.max_hp as int == clamp_stat(
                                    p.max_hp - eq.hp_bonus,
                                )
                                &&& final(self).player.hp as int == vstd::math::min(
                                    p.hp as int,
                                    final(self).player.max_hp as int,
                                )
                                &&& final(self).player.buffs == p.buffs
                                &&& crate::world::logged(
                                    old(self).logs@,
                                    final(self).logs@,
                                    "Unequipped "@ + eq.name@ + "."@,
                                )
                            },
                            None => final(self).player == p && crate::world::logged(
                                old(self).logs@,
                                final(self).logs@,
                                "No sword equipped."@,
                            ),
                        }
                    },
                    InvSelection::ShieldSlot => {
                        match inv.shield {
                            Some(eq) => {
                                &&& final(self).player.inventory.shield is None
                                &&& final(self).player.inventory.sword == inv.sword
                                &&& final(self).player.inventory.consumables == inv.consumables
                                &&& final(self).player.inventory.backpack@ == inv.backpack@.push(
                                    eq,
                                )
                                &&& final(self).player.max_hp as int == clamp_stat(
                                    p.max_hp - eq.hp_bonus,
                                )
                                &&& final(self).player.hp as int == vstd::math::min(
                                    p.hp as int,
                                    final(self).player.max_hp as int,
                                )
                                &&& final(self).player.buffs == p.buffs
                                &&& crate::world::logged(
                                    old(self).logs@,
                                    final(self).logs@,
                                    "Unequipped "@ + eq.name@ + "."@,
                                )
                            },
                            None => final(self).player == p && crate::world::logged(
                                old(self).logs@,
                                final(self).logs@,
                                "No shield equipped."@,
                            ),
                        }
                    },
                    InvSelection::Consumable(i) => {
                        let item = inv.consumables@[i as int];
                        &&& final(self).player.inventory.consumables@ == inv.consumables@.remove(
                            i as int,
                        )
                        &&& final(self).player.inventory.sword == inv.sword
                        &&& final(self).player.inventory.shield == inv.shield
                        &&& final(self).player.inventory.backpack == inv.backpack
                        &&& final(self).player.hp as int == vstd::math::min(
                            clamp_stat(p.hp + item.heal),
                            p.max_hp as int,
                        )
                        &&& final(self).player.max_hp == p.max_hp
                        &&& (item.atk_bonus != 0 || item.def_bonus != 0
                            ==> final(self).player.buffs@ == p.buffs@.push(
                            crate::entity::TempBuff {
                                atk_bonus: item.atk_bonus,
                                def_bonus: item.def_bonus,
                                speed_bonus: 0,
                                expires_at_ms: if old(self).clock_ms + 30000 > u64::MAX {
                                    u64::MAX
                                } else {
                                    (old(self).clock_ms + 30000) as u64
                                },
                            },
                        ))
                        &&& (item.atk_bonus == 0 && item.def_bonus == 0
                            ==> final(self).player.buffs@ == p.buffs@)
                        &&& crate::world::logged(
                            old(self).logs@,
                            final(self).logs@,
                            used_line(item),
                        )
                    },
                    InvSelection::BackpackItem(i) => {
                        let eq = inv.backpack@[i as int];
                        let displaced = if eq.slot == EquipSlot::Sword {
                            inv.sword
                        } else {
                            inv.shield
                        };
                        let bp2 = match displaced {
                            Some(o) => inv.backpack@.remove(i as int).push(o),
                            None => inv.backpack@.remove(i as int),
                        };
                        &&& final(self).player.inventory.backpack@ == bp2
                        &&& final(self).player.inventory.consumables == inv.consumables
                        &&& (eq.slot == EquipSlot::Sword ==> final(self).player.inventory.sword
                            == Some(eq) && final(self).player.inventory.shield == inv.shield)
                        &&& (eq.slot == EquipSlot::Shield ==> final(self).player.inventory.shield
                            == Some(eq) && final(self).player.inventory.sword == inv.sword)
                        &&& final(self).player.max_hp as int == clamp_stat(
                            clamp_stat(p.max_hp + eq.hp_bonus) - opt_hp(displaced),
                        )
                        &&& final(self).player.hp as int == vstd::math::min(
                            p.hp as int,
                            final(self).player.max_hp as int,
                        )
                        &&& final(self).player.buffs == p.buffs
                        &&& crate::world::logged(
                            old(self).logs@,
                            final(self).logs@,
                            (if eq.slot == EquipSlot::Sword {
                                "Equipped sword: "@
                            } else {
                                "Equipped shield: "@
                            }) + eq.name@ + "."@,
                        )
                    },
                    InvSelection::Nothing => final(self).player == p && crate::world::logged(
                        old(self).logs@,
                        final(self).logs@,
                        "Nothing to use."@,
                    ),
                }
            }),
    {
        let selection = self.player.inventory.selection();
        match selection {
            InvSelection::SwordSlot => {
                self.unequip_slot(true);
            },
            InvSelection::ShieldSlot => {
                self.unequip_slot(false);
            },
            InvSelection::Consumable(_) => {
                self.use_selected_consumable_now();
            },
            InvSelection::BackpackItem(i) => {
                self.equip_from_backpack(i);
            },
            InvSelection::Nothing => {
                self.push_log(String::from_str("Nothing to use."));
            },
        }
    }
}

impl World {
    /// Open a session presenting a found chest's contents with the
    /// three-way take / use / discard choice.
    fn start_chest_dialogue(
        &mut self,
        room: usize,
        x: i32,
        y: i32,
        item: Option<Consumable>,
        weapon: Option<Equipment>,
    )
        requires
            old(self).wf(),
            old(self).state == GameState::Playing,
        ensures
            final(self).wf(),
            *final(self) == (World {
                dialogue: final(self).dialogue,
                state: GameState::Dialogue,
                ..*old(self)
            }),
            final(self).state == GameState::Dialogue,
            final(self).dialogue matches Some(d) && {
                &&& d.npc == NpcId::MayorSol
                &&& d.page_index == 0
                &&& d.pages@.len() == 1
                &&& d.awaiting == Some(AwaitingChoice::Chest { room, x, y, item, weapon })
            },
    {
        let name: String = match (&item, &weapon) {
            (Some(c), _) => c.name.clone(),
            (None, Some(w)) => w.name.clone(),
            (None, None) => String::from_str("nothing"),
        };
        let mut page = String::from_str("You found a treasure chest!\nInside is: ");
        page.append(name.as_str());
        page.append("\n\n(A) Put in inventory\n(B) Use now (Consumable)\n(C) Throw away");
        let mut pages: Vec<String> = Vec::new();
        pages.push(page);
        self.dialogue = Some(
            DialogueSession {
                npc: NpcId::MayorSol,
                title: String::from_str("Treasure Chest"),
                pages,
                page_index: 0,
                awaiting: Some(AwaitingChoice::Chest { room, x, y, item, weapon }),
            },
        );
        self.state = GameState::Dialogue;
    }

    /// If the player stands on an unopened chest, open it: the chest is
    /// consumed, the tile reverts to floor, and a chest dialogue presents
    /// the contents.
    pub fn open_chest_if_on_one(&mut self)
        requires
            old(self).wf(),
            old(self).state == GameState::Playing,
        ensures
            final(self).wf(),
            final(self).clock_ms == old(self).clock_ms,
            final(self).seed == old(self).seed,
            final(self).inventory_open == old(self).inventory_open,
            final(self).stats_open == old(self).stats_open,
            ({
                let cur = old(self).current as int;
                let lvl = old(self).levels@[cur];
                let px = old(self).player.x;
                let py = old(self).player.y;
                match first_chest_at(lvl.chests@, px, py, lvl.chests@.len() as int) {
                    Some(j) => {
                        &&& *final(self) == (World {
                            levels: final(self).levels,
                            dialogue: final(self).dialogue,
                            state: GameState::Dialogue,
                            ..*old(self)
                        })
                        &&& final(self).state == GameState::Dialogue
                        &&& final(self).dialogue matches Some(d) && d.awaiting == Some(
                            AwaitingChoice::Chest {
                                room: old(self).current,
                                x: px,
                                y: py,
                                item: lvl.chests@[j].item,
                                weapon: lvl.chests@[j].weapon,
                            },
                        )
                        &&& final(self).levels@[cur].chests@ == lvl.chests@.update(
                            j,
                            Chest { x: px, y: py, item: None, weapon: None, opened: true },
                        )
                        &&& final(self).levels@[cur].map.tiles@ == lvl.map.tiles@.update(
                            crate::world::cell_idx((px, py), lvl.map.width as int),
                            Tile::Floor,
                        )
                        &&& final(self).levels@[cur].map.tile_at(px as int, py as int)
                            == Tile::Floor
                        &&& final(self).levels@[cur].door == lvl.door
                        &&& final(self).player == old(self).player
                        &&& final(self).current == old(self).current
                        &&& final(self).levels@[1 - cur] == old(self).levels@[1 - cur]
                    },
                    None => *final(self) == *old(self),
                }
            }),
    {
        let room = self.current;
        let px = self.player.x;
        let py = self.player.y;
        let n = self.levels[room].chests.len();
        let ghost chests0 = self.levels@[room as int].chests@;
        let mut found: Option<usize> = None;
        let mut i: usize = 0;
        while i < n
            invariant
                self.levels@.len() == 2,
                room < 2,
                n == self.levels@[room as int].chests@.len(),
                chests0 == self.levels@[room as int].chests@,
                i <= n,
                (found matches Some(j) ==> first_chest_at(chests0, px, py, i as int) == Some(
                    j as int,
                )),
                (found is None ==> first_chest_at(chests0, px, py, i as int) is None),
                found matches Some(j) ==> j < i,
            decreases n - i,
        {
            if found.is_none() {
                let c = &self.levels[room].chests[i];
                if !c.opened && c.x == px && c.y == py {
                    found = Some(i);
                }
            }
            i = i + 1;
        }
        if let Some(j) = found {
            proof {
                lemma_first_chest_at_props(chests0, px, py, n as int);
            }
            let item = self.levels[room].chests[j].item.take();
            let weapon = self.levels[room].chests[j].weapon.take();
            self.levels[room].chests[j].opened = true;
            proof {
                assert(self.levels@[room as int].chests@ =~= chests0.update(
                    j as int,
                    Chest { x: px, y: py, item: None, weapon: None, opened: true },
                ));
            }
            self.levels[room].map.set(px as usize, py as usize, Tile::Floor);
            proof {
                crate::gamemap::lemma_idx_in_range(
                    px as int,
                    py as int,
                    self.levels@[room as int].map.width as int,
                    self.levels@[room as int].map.height as int,
                );
            }
            self.start_chest_dialogue(room, px, py, item, weapon);
        }
    }
}

/// No cell of the player's eight-cell neighborhood is an on-map door
/// tile.
pub open spec fn no_adjacent_door(m: crate::gamemap::GameMap, px: int, py: int) -> bool {
    &&& !(m.spec_in_bounds(px - 1, py - 1) && m.tile_at(px - 1, py - 1) == Tile::Door)
    &&& !(m.spec_in_bounds(px, py - 1) && m.tile_at(px, py - 1) == Tile::Door)
    &&& !(m.spec_in_bounds(px + 1, py - 1) && m.tile_at(px + 1, py - 1) == Tile::Door)
    &&& !(m.spec_in_bounds(px - 1, py) && m.tile_at(px - 1, py) == Tile::Door)
    &&& !(m.spec_in_bounds(px + 1, py) && m.tile_at(px + 1, py) == Tile::Door)
    &&& !(m.spec_in_bounds(px - 1, py + 1) && m.tile_at(px - 1, py + 1) == Tile::Door)
    &&& !(m.spec_in_bounds(px, py + 1) && m.tile_at(px, py + 1) == Tile::Door)
    &&& !(m.spec_in_bounds(px + 1, py + 1) && m.tile_at(px + 1, py + 1) == Tile::Door)
}

impl World {
    /// Whether `(x, y)` is an on-map door tile of the current level.
    fn is_door_at(&self, x: i32, y: i32) -> (r: bool)
        requires
            self.wf(),
        ensures
            r == (self.spec_current_map().spec_in_bounds(x as int, y as int)
                && self.spec_current_map().tile_at(x as int, y as int) == Tile::Door),
    {
        let m = &self.levels[self.current].map;
        if m.in_bounds(x, y) {
            matches!(m.get(x as usize, y as usize), Tile::Door)
        } else {
            false
        }
    }

    /// Whether `(x, y)` is an on-map floor tile of level `room`.
    fn is_floor_of(&self, room: usize, x: i32, y: i32) -> (r: bool)
        requires
            self.levels@.len() == 2,
            room < 2,
            self.levels@[room as int].map.wf(),
        ensures
            r == (self.levels@[room as int].map.spec_in_bounds(x as int, y as int)
                && self.levels@[room as int].map.tile_at(x as int, y as int) == Tile::Floor),
    {
        let m = &self.levels[room].map;
        if m.in_bounds(x, y) {
            matches!(m.get(x as usize, y as usize), Tile::Floor)
        } else {
            false
        }
    }

    /// The door tile adjacent to the player on the current level, if any,
    /// in row-major neighborhood scan order.
    pub fn door_near_player(&self) -> (r: Option<(i32, i32)>)
        requires
            self.wf(),
        ensures
            match r {
                Some(d) => {
                    &&& self.spec_current_map().spec_in_bounds(d.0 as int, d.1 as int)
                    &&& self.spec_current_map().tile_at(d.0 as int, d.1 as int) == Tile::Door
                    &&& vstd::math::abs(d.0 as int - self.player.x as int) <= 1
                    &&& vstd::math::abs(d.1 as int - self.player.y as int) <= 1
                    &&& d != (self.player.x, self.player.y)
                    &&& !no_adjacent_door(
                        self.spec_current_map(),
                        self.player.x as int,
                        self.player.y as int,
                    )
                },
                None => no_adjacent_door(
                    self.spec_current_map(),
                    self.player.x as int,
                    self.player.y as int,
                ),
            },
    {
        let px = self.player.x;
        let py = self.player.y;
        if self.is_door_at(px - 1, py - 1) {
            return Some((px - 1, py - 1));
        }
        if self.is_door_at(px, py - 1) {
            return Some((px, py - 1));
        }
        if self.is_door_at(px + 1, py - 1) {
            return Some((px + 1, py - 1));
        }
        if self.is_door_at(px - 1, py) {
            return Some((px - 1, py));
        }
        if self.is_door_at(px + 1, py) {
            return Some((px + 1, py));
        }
        if self.is_door_at(px - 1, py + 1) {
            return Some((px - 1, py + 1));
        }
        if self.is_door_at(px, py + 1) {
            return Some((px, py + 1));
        }
        if self.is_door_at(px + 1, py + 1) {
            return Some((px + 1, py + 1));
        }
        None
    }

    /// Swap the current level and teleport the player onto a floor tile
    /// adjacent to the new level's door (in a fixed neighborhood scan
    /// order), or onto the door tile itself when no floor neighbor
    /// exists.
    pub fn toggle_room(&mut self)
        requires
            old(self).wf(),
        ensures
            final(self).wf(),
            final(self).current == (if old(self).current == 0 {
                1usize
            } else {
                0usize
            }),
            *final(self) == (World {
                current: final(self).current,
                player: final(self).player,
                logs: final(self).logs,
                ..*old(self)
            }),
            final(self).player == (Player {
                x: final(self).player.x,
                y: final(self).player.y,
                ..old(self).player
            }),
            ({
                let lv = old(self).levels@[final(self).current as int];
                (final(self).player.x as int, final(self).player.y as int) == door_side_spawn(
                    lv.map,
                    lv.door,
                )
            }),
            crate::world::logged(
                old(self).logs@,
                final(self).logs@,
                if old(self).current == 0 {
                    "You step through the door into Room 2..."@
                } else {
                    "You step back into Room 1..."@
                },
            ),
    {
        let new_room: usize = if self.current == 0 {
            1
        } else {
            0
        };
        self.current = new_room;
        let door_pos = self.levels[new_room].door;
        let dx = door_pos.0;
        let dy = door_pos.1;
        let spawn: (i32, i32) = if self.is_floor_of(new_room, dx - 1, dy - 1) {
            (dx - 1, dy - 1)
        } else if self.is_floor_of(new_room, dx, dy - 1) {
            (dx, dy - 1)
        } else if self.is_floor_of(new_room, dx + 1, dy - 1) {
            (dx + 1, dy - 1)
        } else if self.is_floor_of(new_room, dx - 1, dy) {
            (dx - 1, dy)
        } else if self.is_floor_of(new_room, dx + 1, dy) {
            (dx + 1, dy)
        } else if self.is_floor_of(new_room, dx - 1, dy + 1) {
            (dx - 1, dy + 1)
        } else if self.is_floor_of(new_room, dx, dy + 1) {
            (dx, dy + 1)
        } else if self.is_floor_of(new_room, dx + 1, dy + 1) {
            (dx + 1, dy + 1)
        } else {
            door_pos
        };
        self.player.x = spawn.0;
        self.player.y = spawn.1;
        if new_room == 1 {
            self.push_log(String::from_str("You step through the door into Room 2..."));
        } else {
            self.push_log(String::from_str("You step back into Room 1..."));
        }
    }
}

/// Purging expired buffs does not change the sum of unexpired bonuses.
pub proof fn lemma_purge_keeps_sums(s: Seq<crate::entity::TempBuff>, now: u64)
    ensures
        crate::entity::buff_atk_sum(crate::entity::purged_buffs(s, now), now)
            == crate::entity::buff_atk_sum(s, now),
        crate::entity::buff_def_sum(crate::entity::purged_buffs(s, now), now)
            == crate::entity::buff_def_sum(s, now),
        crate::entity::buff_speed_sum(crate::entity::purged_buffs(s, now), now)
            == crate::entity::buff_speed_sum(s, now),
    decreases s.len(),
{
    if s.len() > 0 {
        lemma_purge_keeps_sums(s.drop_last(), now);
        let rest = crate::entity::purged_buffs(s.drop_last(), now);
        if s.last().expires_at_ms > now {
            assert(crate::entity::purged_buffs(s, now) == rest.push(s.last()));
            assert(crate::entity::purged_buffs(s, now).drop_last() =~= rest);
            assert(crate::entity::purged_buffs(s, now).last() == s.last());
        }
    }
}

/// The world after the start-of-action purge: only the player's expired
/// buffs are gone.
pub open spec fn after_purge(w2: World, w: World) -> bool {
    &&& w2.player.buffs@ == crate::entity::purged_buffs(w.player.buffs@, w.clock_ms)
    &&& w2.player == (Player { buffs: w2.player.buffs, ..w.player })
}

/// Whether some NPC stands within one tile of the player on the current
/// level.
pub open spec fn npc_adjacent(w: World) -> bool {
    exists|k: int|
        0 <= k < w.npcs@.len() && (#[trigger] w.npcs@[k]).room == w.current && vstd::math::abs(
            w.npcs@[k].x as int - w.player.x as int,
        ) <= 1 && vstd::math::abs(w.npcs@[k].y as int - w.player.y as int) <= 1
}

impl World {
}

/// The world unchanged but for the start-of-action purge of expired
/// buffs: what an inapplicable action leaves behind (such actions are
/// silent no-ops, never errors).
pub open spec fn purged_noop(w0: World, w1: World) -> bool {
    &&& after_purge(w1, w0)
    &&& w1 == (World { player: w1.player, ..w0 })
}

/// The world changed only in the player's inventory and the purged
/// buffs.
pub open spec fn after_purge_inv(w1: World, w0: World) -> bool {
    &&& w1 == (World { logs: w1.logs, player: w1.player, ..w0 })
    &&& w1.player == (Player {
        inventory: w1.player.inventory,
        buffs: w1.player.buffs,
        ..w0.player
    })
    &&& w1.player.buffs@ == crate::entity::purged_buffs(w0.player.buffs@, w0.clock_ms)
}

/// The player changed only in the inventory cursors (and the purged
/// buffs): what a cursor step leaves behind.
pub open spec fn cursor_step_only(w0: World, w1: World) -> bool {
    &&& after_purge_inv(w1, w0)
    &&& w1.logs@ == w0.logs@
    &&& w1.player.inventory == (Inventory {
        weapon_cursor: w1.player.inventory.weapon_cursor,
        consumable_cursor: w1.player.inventory.consumable_cursor,
        backpack_cursor: w1.player.inventory.backpack_cursor,
        ..w0.player.inventory
    })
}

/// What standing on (or stepping onto) a chest tile leaves behind: the
/// first unopened chest at `(px, py)` of the current level is consumed,
/// its tile reverts to floor, and a chest dialogue presents its former
/// contents; without such a chest, nothing of the levels changes.
pub open spec fn chest_opened_at(w0: World, w1: World, px: i32, py: i32) -> bool {
    let cur = w0.current as int;
    let lvl = w0.levels@[cur];
    match first_chest_at(lvl.chests@, px, py, lvl.chests@.len() as int) {
        Some(j) => {
            &&& w1.state == GameState::Dialogue
            &&& w1.dialogue matches Some(d) && d.awaiting == Some(
                AwaitingChoice::Chest {
                    room: w0.current,
                    x: px,
                    y: py,
                    item: lvl.chests@[j].item,
                    weapon: lvl.chests@[j].weapon,
                },
            )
            &&& w1.levels@[cur].chests@ == lvl.chests@.update(
                j,
                Chest { x: px, y: py, item: None, weapon: None, opened: true },
            )
            &&& w1.levels@[cur].map.tiles@ == lvl.map.tiles@.update(
                crate::world::cell_idx((px, py), lvl.map.width as int),
                Tile::Floor,
            )
            &&& w1.levels@[1 - cur] == w0.levels@[1 - cur]
            &&& w1.current == w0.current
            &&& w1.logs@ == w0.logs@
        },
        None => {
            &&& w1.levels@ == w0.levels@
            &&& w1.state == GameState::Playing
            &&& w1.dialogue is None
        },
    }
}

/// What one free-roam step of the controller guarantees, action by
/// action, relative to the world before the buff purge.
#[verifier::opaque]
pub open spec fn playing_step_post(w0: World, w1: World, action: Action) -> bool {
    &&& (action == Action::ToggleInventory ==> {
        &&& w1.inventory_open == !w0.inventory_open
        &&& w1.stats_open == (if !w0.inventory_open {
            false
        } else {
            w0.stats_open
        })
        &&& w1.state == GameState::Playing
        &&& after_purge(w1, w0)
        &&& w1 == (World {
            inventory_open: w1.inventory_open,
            stats_open: w1.stats_open,
            logs: w1.logs,
            player: w1.player,
            ..w0
        })
        &&& crate::world::logged(
            w0.logs@,
            w1.logs@,
            if !w0.inventory_open {
                "Inventory opened."@
            } else {
                "Inventory closed."@
            },
        )
    })
    &&& (action == Action::ToggleStats ==> {
        &&& w1.stats_open == !w0.stats_open
        &&& w1.inventory_open == (if !w0.stats_open {
            false
        } else {
            w0.inventory_open
        })
        &&& w1.state == GameState::Playing
        &&& after_purge(w1, w0)
        &&& w1 == (World {
            inventory_open: w1.inventory_open,
            stats_open: w1.stats_open,
            logs: w1.logs,
            player: w1.player,
            ..w0
        })
        &&& crate::world::logged(
            w0.logs@,
            w1.logs@,
            if !w0.stats_open {
                "Stats opened."@
            } else {
                "Stats closed."@
            },
        )
    })
    &&& (action == Action::ToggleInvTab ==> (if w0.inventory_open {
        &&& w1 == (World { logs: w1.logs, player: w1.player, ..w0 })
        &&& after_purge_inv(w1, w0)
        &&& w1.player.inventory == (Inventory {
            tab: crate::entity::next_tab(w0.player.inventory.tab),
            ..w0.player.inventory
        })
        &&& crate::world::logged(
            w0.logs@,
            w1.logs@,
            "Inventory tab: "@ + tab_title(crate::entity::next_tab(w0.player.inventory.tab)),
        )
    } else {
        purged_noop(w0, w1)
    }))
    &&& ((action == Action::InventoryUp || action == Action::InventoryDown) ==> (
    if w0.inventory_open {
        cursor_step_only(w0, w1)
    } else {
        purged_noop(w0, w1)
    }))
    &&& (action == Action::UseConsumable ==> (if w0.inventory_open {
        &&& w1 == (World { logs: w1.logs, player: w1.player, ..w0 })
        &&& (w0.player.inventory.tab == crate::entity::InvTab::Consumables
            && w0.player.inventory.consumables@.len() > 0 ==> {
            &&& w1.player.inventory.consumables@ == w0.player.inventory.consumables@.remove(
                w0.player.inventory.consumable_cursor as int,
            )
            &&& w1.player.hp as int == vstd::math::min(
                clamp_stat(
                    w0.player.hp
                        + w0.player.inventory.consumables@[w0.player.inventory.consumable_cursor as int].heal,
                ),
                w0.player.max_hp as int,
            )
        })
    } else {
        purged_noop(w0, w1)
    }))
    &&& (action == Action::Interact ==> {
        let near = crate::world::first_adjacent_npc(
            w0.npcs@,
            w0.current,
            w0.player.x,
            w0.player.y,
            0,
        );
        let doored = !no_adjacent_door(
            w0.levels@[w0.current as int].map,
            w0.player.x as int,
            w0.player.y as int,
        );
        let armed = w0.player.inventory.sword is Some && w0.player.inventory.shield is Some;
        match near {
            Some(j) => {
                let id = w0.npcs@[j].id;
                &&& w1.state == GameState::Dialogue
                &&& w1.dialogue matches Some(d) && d.npc == id && d.awaiting
                    == crate::dialogue::expected_awaiting(id, w0.mayor_done, w0.noor_done)
                &&& w1.levels@ == w0.levels@
                &&& w1.npcs@ == w0.npcs@
                &&& w1.current == w0.current
                &&& w1.player.x == w0.player.x && w1.player.y == w0.player.y
                &&& (id == NpcId::Lamp && w0.noor_done && !w0.lamp_done
                    && w0.player.inventory.sword is None ==> (
                w1.player.inventory.sword matches Some(e) && crate::dialogue::is_basic_sword(e))
                    && w1.lamp_done)
                &&& (id == NpcId::Lamp && w0.noor_done && !w0.lamp_done
                    && w0.player.inventory.sword is Some && w0.player.inventory.shield is None
                    ==> (w1.player.inventory.shield matches Some(e)
                    && crate::dialogue::is_basic_shield(e)) && w1.lamp_done)
            },
            None => {
                if doored && armed {
                    &&& w1.current == (if w0.current == 0 {
                        1usize
                    } else {
                        0usize
                    })
                    &&& (w1.player.x as int, w1.player.y as int) == door_side_spawn(
                        w0.levels@[w1.current as int].map,
                        w0.levels@[w1.current as int].door,
                    )
                    &&& w1.levels@ == w0.levels@
                    &&& w1.npcs@ == w0.npcs@
                    &&& w1.state == GameState::Playing
                    &&& crate::world::logged(
                        w0.logs@,
                        w1.logs@,
                        if w0.current == 0 {
                            "You step through the door into Room 2..."@
                        } else {
                            "You step back into Room 1..."@
                        },
                    )
                } else if doored {
                    &&& after_purge(w1, w0)
                    &&& w1 == (World { logs: w1.logs, player: w1.player, ..w0 })
                    &&& crate::world::logged(
                        w0.logs@,
                        w1.logs@,
                        "Talk to the mayor and come back"@,
                    )
                } else {
                    let chest = first_chest_at(
                        w0.levels@[w0.current as int].chests@,
                        w0.player.x,
                        w0.player.y,
                        w0.levels@[w0.current as int].chests@.len() as int,
                    );
                    match chest {
                        Some(j) => chest_opened_at(w0, w1, w0.player.x, w0.player.y)
                            && w1.player.x == w0.player.x && w1.player.y == w0.player.y,
                        None => {
                            &&& after_purge(w1, w0)
                            &&& w1 == (World { logs: w1.logs, player: w1.player, ..w0 })
                            &&& crate::world::logged(w0.logs@, w1.logs@, "No one nearby."@)
                        },
                    }
                }
            },
        }
    })
    &&& ((action matches Action::Move(dx, dy)) ==> {
        let dx = action->Move_0;
        let dy = action->Move_1;
        if !(-1 <= dx <= 1 && -1 <= dy <= 1) || w0.inventory_open || w0.stats_open {
            purged_noop(w0, w1)
        } else if npc_blocks(w0, w0.player.x + dx, w0.player.y + dy) {
            purged_noop(w0, w1)
        } else {
            let m = w0.levels@[w0.current as int].map;
            let nx: int = w0.player.x + dx;
            let ny: int = w0.player.y + dy;
            let moved = m.spec_in_bounds(nx, ny) && crate::tile::spec_walkable(m.tile_at(nx, ny));
            let fx: int = if moved {
                nx
            } else {
                w0.player.x as int
            };
            let fy: int = if moved {
                ny
            } else {
                w0.player.y as int
            };
            &&& w1.player.x as int == fx
            &&& w1.player.y as int == fy
            &&& w1.player == (Player {
                x: w1.player.x,
                y: w1.player.y,
                buffs: w1.player.buffs,
                ..w0.player
            })
            &&& w1.player.buffs@ == crate::entity::purged_buffs(w0.player.buffs@, w0.clock_ms)
            &&& w1.npcs@ == w0.npcs@
            &&& (m.tile_at(fx, fy) == Tile::Chest ==> chest_opened_at(
                w0,
                w1,
                w1.player.x,
                w1.player.y,
            ))
            &&& (m.tile_at(fx, fy) != Tile::Chest ==> w1.levels@ == w0.levels@ && w1.state
                == GameState::Playing && w1.logs@ == w0.logs@ && w1.dialogue is None)
        }
    })
    &&& ((action == Action::Quit || action == Action::Confirm || action == Action::Idle || (
    action matches Action::Choice(_)) || (action matches Action::BattleOption(_, _)))
        ==> purged_noop(w0, w1))
}

/// What one dialogue-phase step of the controller guarantees, relative
/// to the world before the buff purge.
#[verifier::opaque]
pub open spec fn dialogue_step_post(w0: World, w1: World, action: Action) -> bool {
    let d = w0.dialogue->Some_0;
    &&& (action == Action::Confirm ==> (if d.page_index + 1 < d.pages@.len() {
        &&& w1.dialogue == Some(DialogueSession { page_index: (d.page_index + 1) as usize, ..d })
        &&& w1.state == GameState::Dialogue
        &&& after_purge(w1, w0)
        &&& w1 == (World { dialogue: w1.dialogue, player: w1.player, ..w0 })
    } else {
        let fights = (d.npc == NpcId::Shab && !w0.shab_defeated) || (d.npc == NpcId::Krad
            && !w0.krad_defeated) || (d.npc == NpcId::Mah && !w0.mah_defeated && w0.shab_defeated
            && w0.krad_defeated);
        &&& w1.dialogue is None
        &&& w1.levels@ == w0.levels@
        &&& w1.npcs@ == w0.npcs@
        &&& (fights ==> w1.state == GameState::Battle && (w1.battle matches Some(b) && b.enemy_id
            == d.npc && !b.player_initiated && !b.penalty_mode))
        &&& (!fights ==> after_purge(w1, w0) && w1 == (World {
            dialogue: None,
            state: GameState::Playing,
            player: w1.player,
            ..w0
        }))
    }))
    &&& ((action matches Action::Choice(c)) ==> {
        let c = action->Choice_0;
        match d.awaiting {
            Some(AwaitingChoice::YesNoMayor) => {
                if c == 'Y' || c == 'y' || c == 'N' || c == 'n' {
                    &&& w1.mayor_done
                    &&& w1.state == GameState::Dialogue
                    &&& w1.dialogue matches Some(d2) && d2.awaiting is None && d2.page_index == 0
                        && d2.pages@.len() == 1
                    &&& w1.levels@ == w0.levels@
                    &&& w1.npcs@ == w0.npcs@
                    &&& after_purge(w1, w0)
                } else {
                    purged_noop(w0, w1)
                }
            },
            Some(AwaitingChoice::ABNoorWeapon) => {
                if c == 'A' || c == 'a' {
                    &&& w1.noor_done
                    &&& w1.player.inventory.sword matches Some(e)
                        && crate::dialogue::is_basic_sword(e)
                    &&& w1.player.inventory.shield == w0.player.inventory.shield
                    &&& w1.state == GameState::Dialogue
                    &&& w1.levels@ == w0.levels@
                } else if c == 'B' || c == 'b' {
                    &&& w1.noor_done
                    &&& w1.player.inventory.shield matches Some(e)
                        && crate::dialogue::is_basic_shield(e)
                    &&& w1.player.inventory.sword == w0.player.inventory.sword
                    &&& w1.state == GameState::Dialogue
                    &&& w1.levels@ == w0.levels@
                } else {
                    purged_noop(w0, w1)
                }
            },
            Some(AwaitingChoice::Chest { .. }) => {
                if c == 'A' || c == 'a' || c == 'B' || c == 'b' || c == 'C' || c == 'c' {
                    &&& w1.state == GameState::Playing
                    &&& w1.dialogue is None
                    &&& w1.levels@ == w0.levels@
                    &&& w1.npcs@ == w0.npcs@
                } else {
                    purged_noop(w0, w1)
                }
            },
            None => purged_noop(w0, w1),
        }
    })
    &&& ((action == Action::Quit || action == Action::Idle || action == Action::Interact || (
    action matches Action::Move(_, _)) || (action matches Action::BattleOption(_, _)) || action
        == Action::ToggleInventory || action == Action::ToggleStats || action
        == Action::ToggleInvTab || action == Action::InventoryUp || action
        == Action::InventoryDown || action == Action::UseConsumable) ==> purged_noop(w0, w1))
}

/// What one battle-phase step of the controller guarantees, relative to
/// the world before the buff purge.
#[verifier::opaque]
pub open spec fn battle_step_post(w0: World, w1: World, action: Action) -> bool {
    &&& ((action matches Action::BattleOption(opt, pen)) ==> {
        let opt = action->BattleOption_0;
        let pen = action->BattleOption_1;
        if opt == 1 || opt == 3 {
            exists|r1: u32, r2: u32, rf: u32|
                #![trigger crate::battle::battle_turn_post(w0, w1, opt, pen, r1, r2, rf)]
                crate::battle::battle_turn_post(w0, w1, opt, pen, r1, r2, rf)
        } else if opt == 2 {
            &&& w1.inventory_open
            &&& w1.state == GameState::Battle
            &&& w1.battle == w0.battle
            &&& w1 == (World { inventory_open: true, logs: w1.logs, player: w1.player, ..w0 })
            &&& w1.player == (Player {
                inventory: w1.player.inventory,
                buffs: w1.player.buffs,
                ..w0.player
            })
            &&& w1.player.buffs@ == crate::entity::purged_buffs(w0.player.buffs@, w0.clock_ms)
            &&& w1.player.inventory == (Inventory {
                tab: crate::entity::InvTab::Consumables,
                ..w0.player.inventory
            })
        } else {
            purged_noop(w0, w1)
        }
    })
    &&& (action == Action::ToggleInventory ==> {
        &&& !w1.inventory_open
        &&& w1.state == GameState::Battle
        &&& after_purge(w1, w0)
        &&& w1 == (World { inventory_open: false, player: w1.player, ..w0 })
    })
    &&& (action == Action::UseConsumable ==> (if w0.inventory_open {
        &&& !w1.inventory_open
        &&& w1.current == w0.current
        &&& (w0.player.inventory.tab == crate::entity::InvTab::Consumables
            && w0.player.inventory.consumables@.len() > 0
            ==> w1.player.inventory.consumables@.len() == w0.player.inventory.consumables@.len()
            - 1)
        &&& (w1.battle matches Some(b) ==> b.enemy_hp == w0.battle->Some_0.enemy_hp)
        &&& (w0.battle->Some_0.enemy_hp > 0 ==> w1.state != GameState::Dialogue && w1.levels@
            == w0.levels@ && w1.npcs@ == w0.npcs@)
    } else {
        purged_noop(w0, w1)
    }))
    &&& ((action == Action::InventoryUp || action == Action::InventoryDown) ==> (
    if w0.inventory_open {
        cursor_step_only(w0, w1)
    } else {
        purged_noop(w0, w1)
    }))
    &&& ((action == Action::Quit || action == Action::Idle || action == Action::Confirm || (
    action matches Action::Choice(_)) || (action matches Action::Move(_, _)) || action
        == Action::Interact || action == Action::ToggleStats || action == Action::ToggleInvTab)
        ==> purged_noop(w0, w1))
}

impl World {
    /// One free-roam step: purge expired buffs, then dispatch the action.
    #[verifier::rlimit(100)]
    #[verifier::spinoff_prover]
    fn step_playing(&mut self, action: Action) -> (r: bool)
        requires
            old(self).wf(),
            old(self).state == GameState::Playing,
        ensures
            final(self).wf(),
            r == (action != Action::Quit),
            final(self).clock_ms == old(self).clock_ms,
            final(self).seed == old(self).seed,
            old(self).mayor_done ==> final(self).mayor_done,
            old(self).noor_done ==> final(self).noor_done,
            old(self).lamp_done ==> final(self).lamp_done,
            old(self).shab_defeated ==> final(self).shab_defeated,
            old(self).krad_defeated ==> final(self).krad_defeated,
            old(self).mah_defeated ==> final(self).mah_defeated,
            old(self).clock_ms < 0xFFFFFFFFFFFFFFFF ==> forall|k: int|
                0 <= k < final(self).player.buffs@.len() ==> (#[trigger] final(self).player.buffs@[k]).expires_at_ms > old(self).clock_ms,
            playing_step_post(*old(self), *final(self), action),
    {
        let clock = self.clock_ms;
        self.player.purge_expired_buffs(clock);
        proof {
            lemma_purge_keeps_sums(old(self).player.buffs@, clock);
            crate::entity::lemma_purged_unexpired(old(self).player.buffs@, clock);
        }
        let mut r: bool = true;
        match action {
            Action::ToggleStats => {
                self.toggle_stats();
            },
            Action::ToggleInventory => {
                self.toggle_inventory();
            },
            Action::ToggleInvTab => {
                if self.inventory_open {
                    self.toggle_inventory_tab();
                }
            },
            Action::InventoryUp => {
                if self.inventory_open {
                    self.player.inventory.move_cursor(-1);
                }
            },
            Action::InventoryDown => {
                if self.inventory_open {
                    self.player.inventory.move_cursor(1);
                }
            },
            Action::UseConsumable => {
                if self.inventory_open {
                    self.use_or_unequip_or_equip();
                }
            },
            Action::Interact => {
                let near: Option<(NpcId, String)>;
                match self.npc_near_player() {
                    Some(n) => {
                        near = Some((n.id, n.name.clone()));
                    },
                    None => {
                        near = None;
                    },
                }
                if let Some((id, name)) = near {
                    self.start_dialogue_for(id, name);
                    if self.noor_done && matches!(id, NpcId::Lamp) && !self.lamp_done {
                        let missing_sword = self.player.inventory.sword.is_none();
                        let missing_shield = self.player.inventory.shield.is_none();
                        if missing_sword {
                            self.player.equip_sword(Self::basic_sword());
                            self.lamp_done = true;
                        } else if missing_shield {
                            self.player.equip_shield(Self::basic_shield());
                            self.lamp_done = true;
                        }
                    }
                } else {
                    let door = self.door_near_player();
                    if door.is_some() {
                        if self.player.inventory.sword.is_some()
                            && self.player.inventory.shield.is_some() {
                            self.toggle_room();
                        } else {
                            self.push_log(String::from_str("Talk to the mayor and come back"));
                        }
                    } else {
                        self.open_chest_if_on_one();
                        if !matches!(self.state, GameState::Dialogue) {
                            self.push_log(String::from_str("No one nearby."));
                        }
                    }
                }
            },
            Action::Move(dx, dy) => {
                let ok_delta = dx >= -1 && dx <= 1 && dy >= -1 && dy <= 1;
                if ok_delta && !self.inventory_open && !self.stats_open {
                    let nx = self.player.x + dx;
                    let ny = self.player.y + dy;
                    if self.npc_at(self.current, nx, ny).is_none() {
                        let on_chest: bool;
                        {
                            let map = &self.levels[self.current].map;
                            self.player.try_move(dx, dy, map);
                            on_chest = matches!(
                                map.get(self.player.x as usize, self.player.y as usize),
                                Tile::Chest
                            );
                        }
                        if on_chest {
                            self.open_chest_if_on_one();
                        }
                    }
                }
            },
            Action::Quit => {
                r = false;
            },
            _ => {},
        }
        proof {
            assert(playing_step_post(*old(self), *self, action)) by {
                reveal(playing_step_post);
            }
        }
        r
    }

    /// One dialogue-phase step: purge expired buffs, then dispatch.
    #[verifier::rlimit(100)]
    #[verifier::spinoff_prover]
    fn step_dialogue(&mut self, action: Action) -> (r: bool)
        requires
            old(self).wf(),
            old(self).state == GameState::Dialogue,
        ensures
            final(self).wf(),
            r == (action != Action::Quit),
            final(self).clock_ms == old(self).clock_ms,
            final(self).seed == old(self).seed,
            old(self).mayor_done ==> final(self).mayor_done,
            old(self).noor_done ==> final(self).noor_done,
            old(self).lamp_done ==> final(self).lamp_done,
            old(self).shab_defeated ==> final(self).shab_defeated,
            old(self).krad_defeated ==> final(self).krad_defeated,
            old(self).mah_defeated ==> final(self).mah_defeated,
            old(self).clock_ms < 0xFFFFFFFFFFFFFFFF ==> forall|k: int|
                0 <= k < final(self).player.buffs@.len() ==> (#[trigger] final(self).player.buffs@[k]).expires_at_ms > old(self).clock_ms,
            dialogue_step_post(*old(self), *final(self), action),
    {
        let clock = self.clock_ms;
        self.player.purge_expired_buffs(clock);
        proof {
            lemma_purge_keeps_sums(old(self).player.buffs@, clock);
            crate::entity::lemma_purged_unexpired(old(self).player.buffs@, clock);
        }
        let mut r: bool = true;
        match action {
            Action::Confirm => {
                self.dialogue_continue();
            },
            Action::Choice(c) => {
                self.dialogue_choice(c);
            },
            Action::Quit => {
                r = false;
            },
            _ => {},
        }
        proof {
            assert(dialogue_step_post(*old(self), *self, action)) by {
                reveal(dialogue_step_post);
            }
        }
        r
    }

    /// One battle-phase step: purge expired buffs, then dispatch; fight
    /// and flee turns draw their chance rolls here.
    #[verifier::rlimit(100)]
    #[verifier::spinoff_prover]
    fn step_battle(&mut self, action: Action) -> (r: bool)
        requires
            old(self).wf(),
            old(self).state == GameState::Battle,
        ensures
            final(self).wf(),
            r == (action != Action::Quit),
            final(self).clock_ms == old(self).clock_ms,
            final(self).seed == old(self).seed,
            old(self).mayor_done ==> final(self).mayor_done,
            old(self).noor_done ==> final(self).noor_done,
            old(self).lamp_done ==> final(self).lamp_done,
            old(self).shab_defeated ==> final(self).shab_defeated,
            old(self).krad_defeated ==> final(self).krad_defeated,
            old(self).mah_defeated ==> final(self).mah_defeated,
            old(self).clock_ms < 0xFFFFFFFFFFFFFFFF ==> forall|k: int|
                0 <= k < final(self).player.buffs@.len() ==> (#[trigger] final(self).player.buffs@[k]).expires_at_ms > old(self).clock_ms,
            battle_step_post(*old(self), *final(self), action),
    {
        let clock = self.clock_ms;
        self.player.purge_expired_buffs(clock);
        proof {
            lemma_purge_keeps_sums(old(self).player.buffs@, clock);
            crate::entity::lemma_purged_unexpired(old(self).player.buffs@, clock);
        }
        let mut r: bool = true;
        match action {
            Action::BattleOption(opt, pen) => {
                if opt == 1 || opt == 3 {
                    if opt == 1 && !pen {
                        let faster: bool;
                        match &self.battle {
                            Some(b) => {
                                faster = b.enemy_speed < self.player.speed(clock);
                            },
                            None => {
                                faster = false;
                            },
                        }
                        if faster {
                            let b_opt = self.battle.take();
                            if let Some(mut b) = b_opt {
                                b.player_initiated = true;
                                self.battle = Some(b);
                            }
                        }
                    }
                    let ghost wcall = *self;
                    let r1 = crate::chance::roll_percent();
                    let r2 = crate::chance::roll_percent();
                    let rf = crate::chance::roll_percent();
                    self.apply_battle_turn(opt, pen, r1, r2, rf);
                    proof {
                        reveal(crate::battle::turn_hps);
                        let bs_old = old(self).battle->Some_0;
                        let bs0 = BattleSession {
                            penalty_mode: pen || bs_old.penalty_mode,
                            player_initiated: bs_old.player_initiated || (opt == 1 && !pen
                                && bs_old.enemy_speed < old(self).player.spec_speed(
                                old(self).clock_ms,
                            )),
                            ..bs_old
                        };
                        let bs0c = BattleSession {
                            penalty_mode: pen || wcall.battle->Some_0.penalty_mode,
                            ..wcall.battle->Some_0
                        };
                        assert(wcall.player.spec_attack(clock) == old(self).player.spec_attack(
                            clock,
                        ));
                        assert(wcall.player.spec_defense(clock) == old(self).player.spec_defense(
                            clock,
                        ));
                        assert(wcall.player.spec_speed(clock) == old(self).player.spec_speed(
                            clock,
                        ));
                        assert(bs0c == bs0);
                        assert(turn_hps(wcall, bs0c, opt, r1, r2, rf) == turn_hps(
                            *old(self),
                            bs0,
                            opt,
                            r1,
                            r2,
                            rf,
                        ));
                        assert(crate::battle::battle_turn_post(
                            *old(self),
                            *self,
                            opt,
                            pen,
                            r1,
                            r2,
                            rf,
                        ));
                    }
                } else if opt == 2 {
                    self.inventory_open = true;
                    self.player.inventory.tab = crate::entity::InvTab::Consumables;
                }
            },
            Action::UseConsumable => {
                if self.inventory_open {
                    self.use_or_unequip_or_equip();
                    self.inventory_open = false;
                    let ghost wcall = *self;
                    let r1 = crate::chance::roll_percent();
                    let r2 = crate::chance::roll_percent();
                    let rf = crate::chance::roll_percent();
                    self.apply_battle_turn(2, false, r1, r2, rf);
                    proof {
                        reveal(crate::battle::turn_hps);
                        assert(self.battle matches Some(b) ==> b.enemy_hp
                            == old(self).battle->Some_0.enemy_hp);
                        assert(old(self).battle->Some_0.enemy_hp > 0 ==> self.state
                            != GameState::Dialogue && self.levels@ == old(self).levels@
                            && self.npcs@ == old(self).npcs@);
                    }
                }
            },
            Action::ToggleInventory => {
                if self.inventory_open {
                    self.inventory_open = false;
                }
            },
            Action::Quit => {
                r = false;
            },
            Action::InventoryUp => {
                if self.inventory_open {
                    self.player.inventory.move_cursor(-1);
                }
            },
            Action::InventoryDown => {
                if self.inventory_open {
                    self.player.inventory.move_cursor(1);
                }
            },
            _ => {},
        }
        proof {
            assert(battle_step_post(*old(self), *self, action)) by {
                reveal(battle_step_post);
            }
        }
        r
    }

    /// The central dispatch: consume one action, mutate the world, and
    /// report whether the game continues. Expired buffs are always purged
    /// first; `Quit` is honored immediately in every phase and is the only
    /// action that stops the game. What each phase guarantees, action by
    /// action, is stated by `playing_step_post`, `dialogue_step_post` and
    /// `battle_step_post`.
    pub fn apply_action(&mut self, action: Action) -> (r: bool)
        requires
            old(self).wf(),
        ensures
            final(self).wf(),
            r == (action != Action::Quit),
            final(self).clock_ms == old(self).clock_ms,
            final(self).seed == old(self).seed,
            // Expired buffs are purged in every phase, under every action.
            old(self).clock_ms < 0xFFFFFFFFFFFFFFFF ==> forall|k: int|
                0 <= k < final(self).player.buffs@.len() ==> (#[trigger] final(self).player.buffs@[k]).expires_at_ms > old(self).clock_ms,
            // The six quest and defeat flags are one-way.
            old(self).mayor_done ==> final(self).mayor_done,
            old(self).noor_done ==> final(self).noor_done,
            old(self).lamp_done ==> final(self).lamp_done,
            old(self).shab_defeated ==> final(self).shab_defeated,
            old(self).krad_defeated ==> final(self).krad_defeated,
            old(self).mah_defeated ==> final(self).mah_defeated,
            // Title and intro screens react only to Confirm.
            old(self).state == GameState::Title ==> {
                &&& final(self).state == (if action == Action::Confirm {
                    GameState::Intro
                } else {
                    GameState::Title
                })
                &&& after_purge(*final(self), *old(self))
                &&& *final(self) == (World {
                    player: final(self).player,
                    state: final(self).state,
                    ..*old(self)
                })
            },
            old(self).state == GameState::Intro ==> {
                &&& final(self).state == (if action == Action::Confirm {
                    GameState::Playing
                } else {
                    GameState::Intro
                })
                &&& after_purge(*final(self), *old(self))
                &&& *final(self) == (World {
                    player: final(self).player,
                    state: final(self).state,
                    ..*old(self)
                })
            },
            old(self).state == GameState::Playing ==> playing_step_post(
                *old(self),
                *final(self),
                action,
            ),
            old(self).state == GameState::Dialogue ==> dialogue_step_post(
                *old(self),
                *final(self),
                action,
            ),
            old(self).state == GameState::Battle ==> battle_step_post(
                *old(self),
                *final(self),
                action,
            ),
    {
        match self.state {
            GameState::Title => {
                let clock = self.clock_ms;
                self.player.purge_expired_buffs(clock);
                proof {
                    crate::entity::lemma_purged_unexpired(old(self).player.buffs@, clock);
                }
                let mut r: bool = true;
                match action {
                    Action::Confirm => {
                        self.state = GameState::Intro;
                    },
                    Action::Quit => {
                        r = false;
                    },
                    _ => {},
                }
                r
            },
            GameState::Intro => {
                let clock = self.clock_ms;
                self.player.purge_expired_buffs(clock);
                proof {
                    crate::entity::lemma_purged_unexpired(old(self).player.buffs@, clock);
                }
                let mut r: bool = true;
                match action {
                    Action::Confirm => {
                        self.state = GameState::Playing;
                    },
                    Action::Quit => {
                        r = false;
                    },
                    _ => {},
                }
                r
            },
            GameState::Dialogue => self.step_dialogue(action),
            GameState::Battle => self.step_battle(action),
            GameState::Playing => self.step_playing(action),
        }
    }
}

/// Whether an NPC of the current level stands on `(nx, ny)`.
pub open spec fn npc_blocks(w: World, nx: int, ny: int) -> bool {
    exists|k: int|
        0 <= k < w.npcs@.len() && (#[trigger] w.npcs@[k]).room == w.current && w.npcs@[k].x as int
            == nx && w.npcs@[k].y as int == ny
}

} // verus!

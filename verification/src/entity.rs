//! Player stats, equipment slots, consumables, backpack and temporary
//! timed buffs.
//!
//! Wall-clock time never enters this module on its own: every operation
//! that depends on time takes an explicit `now_ms` parameter, so buff
//! expiry is deterministic and testable without real delays.

use vstd::prelude::*;

use crate::gamemap::GameMap;
use crate::num::{clamp_i128, clamp_stat};
use crate::tile::spec_walkable;

verus! {

/// The slot a piece of equipment occupies.
#[derive(Clone, Copy, Debug, PartialEq, Eq, Structural)]
pub enum EquipSlot {
    Sword,
    Shield,
}

/// A piece of equipment. Ownership transfers in full between a slot and
/// the backpack; an item is never duplicated.
#[derive(Clone, Debug)]
pub struct Equipment {
    pub name: String,
    pub slot: EquipSlot,
    pub hp_bonus: i32,
    pub atk_bonus: i32,
    pub def_bonus: i32,
    pub speed_bonus: i32,
}

/// A one-shot consumable: a heal amount (possibly negative) and bonuses
/// applied as a timed buff on use.
#[derive(Clone, Debug)]
pub struct Consumable {
    pub name: String,
    pub heal: i32,
    pub atk_bonus: i32,
    pub def_bonus: i32,
}

/// A stat bonus active until an absolute expiry time, purely additive.
#[derive(Clone, Copy, Debug)]
pub struct TempBuff {
    pub atk_bonus: i32,
    pub def_bonus: i32,
    pub speed_bonus: i32,
    pub expires_at_ms: u64,
}

/// One of the three inventory views.
#[derive(Clone, Copy, Debug, PartialEq, Eq, Structural)]
pub enum InvTab {
    Weapons,
    Consumables,
    Backpack,
}

/// The tab that follows `t` in the cycle Weapons, Consumables, Backpack.
pub open spec fn next_tab(t: InvTab) -> InvTab {
    match t {
        InvTab::Weapons => InvTab::Consumables,
        InvTab::Consumables => InvTab::Backpack,
        InvTab::Backpack => InvTab::Weapons,
    }
}

/// What the inventory cursor currently points at.
#[derive(Clone, Copy, Debug, PartialEq, Eq, Structural)]
pub enum InvSelection {
    SwordSlot,
    ShieldSlot,
    Consumable(usize),
    BackpackItem(usize),
    Nothing,
}

/// A cursor position after a wrapping move by `delta` over a list of
/// length `len`: stepping past either end wraps to the other, and an empty
/// list pins the cursor at zero.
pub open spec fn wrap_move(cur: int, len: int, delta: int) -> int {
    if len <= 0 {
        0
    } else {
        let idx = cur + delta;
        if idx < 0 {
            len - 1
        } else if idx >= len {
            0
        } else {
            idx
        }
    }
}

/// Equipped gear, held consumables, unequipped backpack gear, and one
/// cursor per tab.
#[derive(Clone, Debug)]
pub struct Inventory {
    pub sword: Option<Equipment>,
    pub shield: Option<Equipment>,
    pub consumables: Vec<Consumable>,
    pub backpack: Vec<Equipment>,
    pub tab: InvTab,
    pub weapon_cursor: usize,
    pub consumable_cursor: usize,
    pub backpack_cursor: usize,
}

impl Inventory {
    /// Every tab cursor is within bounds of the list it indexes, or zero
    /// when that list is empty.
    pub open spec fn wf(&self) -> bool {
        &&& self.weapon_cursor <= 1
        &&& (self.consumables@.len() == 0 ==> self.consumable_cursor == 0)
        &&& (self.consumables@.len() > 0 ==> self.consumable_cursor < self.consumables@.len())
        &&& (self.backpack@.len() == 0 ==> self.backpack_cursor == 0)
        &&& (self.backpack@.len() > 0 ==> self.backpack_cursor < self.backpack@.len())
    }

    /// What the current tab's cursor points at.
    pub open spec fn spec_selection(&self) -> InvSelection {
        match self.tab {
            InvTab::Weapons => {
                if self.weapon_cursor == 0 {
                    InvSelection::SwordSlot
                } else {
                    InvSelection::ShieldSlot
                }
            },
            InvTab::Consumables => {
                if self.consumables@.len() == 0 {
                    InvSelection::Nothing
                } else {
                    InvSelection::Consumable(self.consumable_cursor)
                }
            },
            InvTab::Backpack => {
                if self.backpack@.len() == 0 {
                    InvSelection::Nothing
                } else {
                    InvSelection::BackpackItem(self.backpack_cursor)
                }
            },
        }
    }

    /// An empty inventory, opened on the weapons tab.
    pub fn default_loadout() -> (r: Inventory)
        ensures
            r.sword is None,
            r.shield is None,
            r.consumables@.len() == 0,
            r.backpack@.len() == 0,
            r.tab == InvTab::Weapons,
            r.weapon_cursor == 0,
            r.consumable_cursor == 0,
            r.backpack_cursor == 0,
            r.wf(),
    {
        Inventory {
            sword: None,
            shield: None,
            consumables: Vec::new(),
            backpack: Vec::new(),
            tab: InvTab::Weapons,
            weapon_cursor: 0,
            consumable_cursor: 0,
            backpack_cursor: 0,
        }
    }

    /// Rotate to the next tab. Cursors are re-clamped to the current list
    /// lengths, which leaves them unchanged on a well-formed inventory.
    pub fn toggle_tab(&mut self)
        requires
            old(self).wf(),
        ensures
            final(self).wf(),
            final(self).tab == next_tab(old(self).tab),
            *final(self) == (Inventory { tab: next_tab(old(self).tab), ..*old(self) }),
    {
        self.tab = match self.tab {
            InvTab::Weapons => InvTab::Consumables,
            InvTab::Consumables => InvTab::Backpack,
            InvTab::Backpack => InvTab::Weapons,
        };
        if self.weapon_cursor > 1 {
            self.weapon_cursor = 1;
        }
        if self.consumables.len() > 0 && self.consumable_cursor >= self.consumables.len() {
            self.consumable_cursor = self.consumables.len() - 1;
        }
        if self.backpack.len() > 0 && self.backpack_cursor >= self.backpack.len() {
            self.backpack_cursor = self.backpack.len() - 1;
        }
    }

    /// Step the current tab's cursor by `delta`, wrapping at the ends.
    pub fn move_cursor(&mut self, delta: i32)
        requires
            old(self).wf(),
        ensures
            final(self).wf(),
            final(self).tab == old(self).tab,
            final(self).sword == old(self).sword,
            final(self).shield == old(self).shield,
            final(self).consumables == old(self).consumables,
            final(self).backpack == old(self).backpack,
            old(self).tab == InvTab::Weapons ==> *final(self) == (Inventory {
                weapon_cursor: wrap_move(old(self).weapon_cursor as int, 2, delta as int) as usize,
                ..*old(self)
            }),
            old(self).tab == InvTab::Consumables ==> *final(self) == (Inventory {
                consumable_cursor: wrap_move(
                    old(self).consumable_cursor as int,
                    old(self).consumables@.len() as int,
                    delta as int,
                ) as usize,
                ..*old(self)
            }),
            old(self).tab == InvTab::Backpack ==> *final(self) == (Inventory {
                backpack_cursor: wrap_move(
                    old(self).backpack_cursor as int,
                    old(self).backpack@.len() as int,
                    delta as int,
                ) as usize,
                ..*old(self)
            }),
    {
        match self.tab {
            InvTab::Weapons => {
                let idx: i128 = self.weapon_cursor as i128 + delta as i128;
                self.weapon_cursor = if idx < 0 {
                    1
                } else if idx >= 2 {
                    0
                } else {
                    idx as usize
                };
            },
            InvTab::Consumables => {
                let len = self.consumables.len();
                if len == 0 {
                    self.consumable_cursor = 0;
                } else {
                    let idx: i128 = self.consumable_cursor as i128 + delta as i128;
                    self.consumable_cursor = if idx < 0 {
                        len - 1
                    } else if idx >= len as i128 {
                        0
                    } else {
                        idx as usize
                    };
                }
            },
            InvTab::Backpack => {
                let len = self.backpack.len();
                if len == 0 {
                    self.backpack_cursor = 0;
                } else {
                    let idx: i128 = self.backpack_cursor as i128 + delta as i128;
                    self.backpack_cursor = if idx < 0 {
                        len - 1
                    } else if idx >= len as i128 {
                        0
                    } else {
                        idx as usize
                    };
                }
            },
        }
    }

    /// What the cursor currently points at.
    pub fn selection(&self) -> (r: InvSelection)
        ensures
            r == self.spec_selection(),
    {
        match self.tab {
            InvTab::Weapons => {
                if self.weapon_cursor == 0 {
                    InvSelection::SwordSlot
                } else {
                    InvSelection::ShieldSlot
                }
            },
            InvTab::Consumables => {
                if self.consumables.len() == 0 {
                    InvSelection::Nothing
                } else {
                    InvSelection::Consumable(self.consumable_cursor)
                }
            },
            InvTab::Backpack => {
                if self.backpack.len() == 0 {
                    InvSelection::Nothing
                } else {
                    InvSelection::BackpackItem(self.backpack_cursor)
                }
            },
        }
    }

    /// Remove and return the consumable under the cursor, when the
    /// consumables tab is active and non-empty. The cursor is re-clamped
    /// to the shortened list.
    pub fn take_selected_consumable(&mut self) -> (r: Option<Consumable>)
        requires
            old(self).wf(),
        ensures
            final(self).wf(),
            final(self).tab == old(self).tab,
            final(self).sword == old(self).sword,
            final(self).shield == old(self).shield,
            final(self).backpack == old(self).backpack,
            final(self).weapon_cursor == old(self).weapon_cursor,
            final(self).backpack_cursor == old(self).backpack_cursor,
            old(self).tab != InvTab::Consumables || old(self).consumables@.len() == 0 ==> {
                &&& r is None
                &&& *final(self) == *old(self)
            },
            old(self).tab == InvTab::Consumables && old(self).consumables@.len() > 0 ==> {
                &&& r == Some(old(self).consumables@[old(self).consumable_cursor as int])
                &&& final(self).consumables@ == old(self).consumables@.remove(
                    old(self).consumable_cursor as int,
                )
                &&& final(self).consumable_cursor == if old(self).consumables@.len() == 1 {
                    0int
                } else if old(self).consumable_cursor as int >= old(self).consumables@.len() - 1 {
                    old(self).consumables@.len() - 2
                } else {
                    old(self).consumable_cursor as int
                }
            },
    {
        if !matches!(self.tab, InvTab::Consumables) {
            return None;
        }
        if self.consumables.len() == 0 {
            return None;
        }
        let idx = self.consumable_cursor;
        let item = self.consumables.remove(idx);
        let new_len = self.consumables.len();
        if new_len == 0 {
            self.consumable_cursor = 0;
        } else if self.consumable_cursor >= new_len {
            self.consumable_cursor = new_len - 1;
        }
        Some(item)
    }
}

/// The hit-point bonus an optional piece of equipment grants.
pub open spec fn opt_hp(o: Option<Equipment>) -> int {
    match o {
        Some(e) => e.hp_bonus as int,
        None => 0,
    }
}

/// The attack bonus an optional piece of equipment grants.
pub open spec fn opt_atk(o: Option<Equipment>) -> int {
    match o {
        Some(e) => e.atk_bonus as int,
        None => 0,
    }
}

/// The defense bonus an optional piece of equipment grants.
pub open spec fn opt_def(o: Option<Equipment>) -> int {
    match o {
        Some(e) => e.def_bonus as int,
        None => 0,
    }
}

/// The speed bonus an optional piece of equipment grants.
pub open spec fn opt_speed(o: Option<Equipment>) -> int {
    match o {
        Some(e) => e.speed_bonus as int,
        None => 0,
    }
}

/// The sum of the attack bonuses of the buffs unexpired at `now`.
pub open spec fn buff_atk_sum(s: Seq<TempBuff>, now: u64) -> int
    decreases s.len(),
{
    if s.len() == 0 {
        0
    } else {
        buff_atk_sum(s.drop_last(), now) + if s.last().expires_at_ms > now {
            s.last().atk_bonus as int
        } else {
            0
        }
    }
}

/// The sum of the defense bonuses of the buffs unexpired at `now`.
pub open spec fn buff_def_sum(s: Seq<TempBuff>, now: u64) -> int
    decreases s.len(),
{
    if s.len() == 0 {
        0
    } else {
        buff_def_sum(s.drop_last(), now) + if s.last().expires_at_ms > now {
            s.last().def_bonus as int
        } else {
            0
        }
    }
}

/// The sum of the speed bonuses of the buffs unexpired at `now`.
pub open spec fn buff_speed_sum(s: Seq<TempBuff>, now: u64) -> int
    decreases s.len(),
{
    if s.len() == 0 {
        0
    } else {
        buff_speed_sum(s.drop_last(), now) + if s.last().expires_at_ms > now {
            s.last().speed_bonus as int
        } else {
            0
        }
    }
}

/// The buffs of `s` that are still unexpired at `now`, in order.
pub open spec fn purged_buffs(s: Seq<TempBuff>, now: u64) -> Seq<TempBuff>
    decreases s.len(),
{
    if s.len() == 0 {
        Seq::empty()
    } else {
        let rest = purged_buffs(s.drop_last(), now);
        if s.last().expires_at_ms > now {
            rest.push(s.last())
        } else {
            rest
        }
    }
}

/// The player: position, hit points, base stats, inventory and active
/// buffs.
#[derive(Clone, Debug)]
pub struct Player {
    pub x: i32,
    pub y: i32,
    pub hp: i32,
    pub max_hp: i32,
    pub base_attack: i32,
    pub base_defense: i32,
    pub base_speed: i32,
    pub inventory: Inventory,
    pub buffs: Vec<TempBuff>,
}

impl Player {
    /// Well-formedness: the inventory cursors are in bounds and current
    /// hit points never exceed the maximum.
    pub open spec fn wf(&self) -> bool {
        &&& self.inventory.wf()
        &&& self.hp <= self.max_hp
    }

    /// The player's effective attack at `now`: base stat plus equipped
    /// bonuses plus the sum of unexpired buff bonuses, clamped.
    pub open spec fn spec_attack(&self, now: u64) -> int {
        clamp_stat(
            self.base_attack + opt_atk(self.inventory.sword) + opt_atk(self.inventory.shield)
                + buff_atk_sum(self.buffs@, now),
        )
    }

    /// The player's effective defense at `now`.
    pub open spec fn spec_defense(&self, now: u64) -> int {
        clamp_stat(
            self.base_defense + opt_def(self.inventory.sword) + opt_def(self.inventory.shield)
                + buff_def_sum(self.buffs@, now),
        )
    }

    /// The player's effective speed at `now`.
    pub open spec fn spec_speed(&self, now: u64) -> int {
        clamp_stat(
            self.base_speed + opt_speed(self.inventory.sword) + opt_speed(self.inventory.shield)
                + buff_speed_sum(self.buffs@, now),
        )
    }

    /// A fresh player at a spawn position with the starting stats and an
    /// empty loadout.
    pub fn new(x: i32, y: i32) -> (r: Player)
        ensures
            r.x == x,
            r.y == y,
            r.hp == 30,
            r.max_hp == 30,
            r.base_attack == 10,
            r.base_defense == 8,
            r.base_speed == 5,
            r.inventory == (Inventory {
                sword: None,
                shield: None,
                consumables: r.inventory.consumables,
                backpack: r.inventory.backpack,
                tab: InvTab::Weapons,
                weapon_cursor: 0,
                consumable_cursor: 0,
                backpack_cursor: 0,
            }),
            r.inventory.consumables@.len() == 0,
            r.inventory.backpack@.len() == 0,
            r.buffs@.len() == 0,
            r.wf(),
    {
        let max_hp: i32 = 30;
        Player {
            x,
            y,
            hp: max_hp,
            max_hp,
            base_attack: 10,
            base_defense: 8,
            base_speed: 5,
            inventory: Inventory::default_loadout(),
            buffs: Vec::new(),
        }
    }

    /// Install a timed buff expiring `duration_ms` after `now_ms`. A buff
    /// with no effect at all is not recorded.
    pub fn add_temp_buff(&mut self, atk: i32, def: i32, speed: i32, duration_ms: u64, now_ms: u64)
        ensures
            final(self).x == old(self).x,
            final(self).y == old(self).y,
            final(self).hp == old(self).hp,
            final(self).max_hp == old(self).max_hp,
            final(self).base_attack == old(self).base_attack,
            final(self).base_defense == old(self).base_defense,
            final(self).base_speed == old(self).base_speed,
            final(self).inventory == old(self).inventory,
            atk == 0 && def == 0 && speed == 0 ==> final(self).buffs@ == old(self).buffs@,
            !(atk == 0 && def == 0 && speed == 0) ==> final(self).buffs@ == old(self).buffs@.push(
                TempBuff {
                    atk_bonus: atk,
                    def_bonus: def,
                    speed_bonus: speed,
                    expires_at_ms: if now_ms + duration_ms > u64::MAX {
                        u64::MAX
                    } else {
                        (now_ms + duration_ms) as u64
                    },
                },
            ),
            old(self).wf() ==> final(self).wf(),
    {
        if atk == 0 && def == 0 && speed == 0 {
            return;
        }
        self.buffs.push(
            TempBuff {
                atk_bonus: atk,
                def_bonus: def,
                speed_bonus: speed,
                expires_at_ms: now_ms.saturating_add(duration_ms),
            },
        );
    }

    /// Remove every buff whose expiry has passed.
    pub fn purge_expired_buffs(&mut self, now_ms: u64)
        ensures
            final(self).buffs@ == purged_buffs(old(self).buffs@, now_ms),
            final(self).x == old(self).x,
            final(self).y == old(self).y,
            final(self).hp == old(self).hp,
            final(self).max_hp == old(self).max_hp,
            final(self).base_attack == old(self).base_attack,
            final(self).base_defense == old(self).base_defense,
            final(self).base_speed == old(self).base_speed,
            final(self).inventory == old(self).inventory,
            old(self).wf() ==> final(self).wf(),
    {
        let n = self.buffs.len();
        let mut kept: Vec<TempBuff> = Vec::new();
        let mut i: usize = 0;
        while i < n
            invariant
                n == self.buffs@.len(),
                i <= n,
                kept@ == purged_buffs(self.buffs@.subrange(0, i as int), now_ms),
            decreases n - i,
        {
            let b = self.buffs[i];
            proof {
                assert(self.buffs@.subrange(0, i as int + 1).drop_last() =~= self.buffs@.subrange(
                    0,
                    i as int,
                ));
            }
            if b.expires_at_ms > now_ms {
                kept.push(b);
            }
            i = i + 1;
        }
        proof {
            assert(self.buffs@.subrange(0, n as int) =~= self.buffs@);
        }
        self.buffs = kept;
    }

    /// The clamped sums of the unexpired buff bonuses at `now_ms`, in the
    /// order attack, defense, speed.
    pub fn active_buff_sums(&self, now_ms: u64) -> (r: (i32, i32, i32))
        ensures
            r.0 as int == clamp_stat(buff_atk_sum(self.buffs@, now_ms)),
            r.1 as int == clamp_stat(buff_def_sum(self.buffs@, now_ms)),
            r.2 as int == clamp_stat(buff_speed_sum(self.buffs@, now_ms)),
    {
        let (a, d, s) = self.buff_sums_wide(now_ms);
        (clamp_i128(a), clamp_i128(d), clamp_i128(s))
    }

    /// The exact sums of the unexpired buff bonuses, in wide integers.
    fn buff_sums_wide(&self, now_ms: u64) -> (r: (i128, i128, i128))
        ensures
            r.0 as int == buff_atk_sum(self.buffs@, now_ms),
            r.1 as int == buff_def_sum(self.buffs@, now_ms),
            r.2 as int == buff_speed_sum(self.buffs@, now_ms),
            -0x800000000000000000000000 <= r.0 <= 0x800000000000000000000000,
            -0x800000000000000000000000 <= r.1 <= 0x800000000000000000000000,
            -0x800000000000000000000000 <= r.2 <= 0x800000000000000000000000,
    {
        let n = self.buffs.len();
        let mut atk: i128 = 0;
        let mut def: i128 = 0;
        let mut spd: i128 = 0;
        let mut i: usize = 0;
        while i < n
            invariant
                n == self.buffs@.len(),
                i <= n,
                atk == buff_atk_sum(self.buffs@.subrange(0, i as int), now_ms),
                def == buff_def_sum(self.buffs@.subrange(0, i as int), now_ms),
                spd == buff_speed_sum(self.buffs@.subrange(0, i as int), now_ms),
                -(i as int) * 0x80000000 <= atk <= (i as int) * 0x80000000,
                -(i as int) * 0x80000000 <= def <= (i as int) * 0x80000000,
                -(i as int) * 0x80000000 <= spd <= (i as int) * 0x80000000,
            decreases n - i,
        {
            let b = self.buffs[i];
            proof {
                assert(self.buffs@.subrange(0, i as int + 1).drop_last() =~= self.buffs@.subrange(
                    0,
                    i as int,
                ));
                lemma_sum_bound_step(i as int, n as int);
            }
            if b.expires_at_ms > now_ms {
                atk = atk + b.atk_bonus as i128;
                def = def + b.def_bonus as i128;
                spd = spd + b.speed_bonus as i128;
            }
            i = i + 1;
        }
        proof {
            assert(self.buffs@.subrange(0, n as int) =~= self.buffs@);
            assert((n as int) * 0x80000000 <= 0x800000000000000000000000) by (nonlinear_arith)
                requires
                    0 <= n <= 0xFFFFFFFFFFFFFFFF,
            ;
        }
        (atk, def, spd)
    }

    /// Effective attack at `now_ms`, computed on demand.
    pub fn attack(&self, now_ms: u64) -> (r: i32)
        ensures
            r as int == self.spec_attack(now_ms),
    {
        let (a, _, _) = self.buff_sums_wide(now_ms);
        let mut v: i128 = self.base_attack as i128;
        if let Some(sw) = &self.inventory.sword {
            v = v + sw.atk_bonus as i128;
        }
        if let Some(sh) = &self.inventory.shield {
            v = v + sh.atk_bonus as i128;
        }
        clamp_i128(v + a)
    }

    /// Effective defense at `now_ms`, computed on demand.
    pub fn defense(&self, now_ms: u64) -> (r: i32)
        ensures
            r as int == self.spec_defense(now_ms),
    {
        let (_, d, _) = self.buff_sums_wide(now_ms);
        let mut v: i128 = self.base_defense as i128;
        if let Some(sw) = &self.inventory.sword {
            v = v + sw.def_bonus as i128;
        }
        if let Some(sh) = &self.inventory.shield {
            v = v + sh.def_bonus as i128;
        }
        clamp_i128(v + d)
    }

    /// Effective speed at `now_ms`, computed on demand.
    pub fn speed(&self, now_ms: u64) -> (r: i32)
        ensures
            r as int == self.spec_speed(now_ms),
    {
        let (_, _, s) = self.buff_sums_wide(now_ms);
        let mut v: i128 = self.base_speed as i128;
        if let Some(sw) = &self.inventory.sword {
            v = v + sw.speed_bonus as i128;
        }
        if let Some(sh) = &self.inventory.shield {
            v = v + sh.speed_bonus as i128;
        }
        clamp_i128(v + s)
    }

    /// Put `eq` into the sword slot, discarding nothing else.
    pub fn equip_sword(&mut self, eq: Equipment)
        ensures
            *final(self) == (Player {
                inventory: Inventory { sword: Some(eq), ..old(self).inventory },
                ..*old(self)
            }),
            old(self).wf() ==> final(self).wf(),
    {
        self.inventory.sword = Some(eq);
    }

    /// Put `eq` into the shield slot, discarding nothing else.
    pub fn equip_shield(&mut self, eq: Equipment)
        ensures
            *final(self) == (Player {
                inventory: Inventory { shield: Some(eq), ..old(self).inventory },
                ..*old(self)
            }),
            old(self).wf() ==> final(self).wf(),
    {
        self.inventory.shield = Some(eq);
    }

    /// Step one tile when the destination is on the map and walkable;
    /// otherwise stay put.
    pub fn try_move(&mut self, dx: i32, dy: i32, map: &GameMap)
        requires
            map.wf(),
            -1 <= dx <= 1,
            -1 <= dy <= 1,
            0 <= old(self).x < map.width,
            0 <= old(self).y < map.height,
        ensures
            final(self).hp == old(self).hp,
            final(self).max_hp == old(self).max_hp,
            final(self).base_attack == old(self).base_attack,
            final(self).base_defense == old(self).base_defense,
            final(self).base_speed == old(self).base_speed,
            final(self).inventory == old(self).inventory,
            final(self).buffs == old(self).buffs,
            ({
                let nx = old(self).x + dx;
                let ny = old(self).y + dy;
                if map.spec_in_bounds(nx as int, ny as int) && spec_walkable(
                    map.tile_at(nx as int, ny as int),
                ) {
                    final(self).x == nx && final(self).y == ny
                } else {
                    final(self).x == old(self).x && final(self).y == old(self).y
                }
            }),
            0 <= final(self).x < map.width,
            0 <= final(self).y < map.height,
            old(self).wf() ==> final(self).wf(),
    {
        let nx = self.x + dx;
        let ny = self.y + dy;
        if nx < 0 || ny < 0 || nx as usize >= map.width || ny as usize >= map.height {
            return;
        }
        if map.is_walkable(nx as usize, ny as usize) {
            self.x = nx;
            self.y = ny;
        }
    }
}

/// A running sum of at most `i` 32-bit terms cannot move outside the wide
/// bound when one more term joins it.
proof fn lemma_sum_bound_step(i: int, n: int)
    requires
        0 <= i < n <= 0xFFFFFFFFFFFFFFFF,
    ensures
        (i + 1) * 0x80000000 <= 0x800000000000000000000000,
        i * 0x80000000 + 0x80000000 == (i + 1) * 0x80000000,
{
    assert((i + 1) * 0x80000000 == i * 0x80000000 + 0x80000000) by (nonlinear_arith);
    assert((i + 1) * 0x80000000 <= 0x10000000000000000 * 0x80000000) by (nonlinear_arith)
        requires
            0 <= i + 1 <= 0x10000000000000000,
    ;
}

/// Every buff that survives a purge expires strictly after the purge
/// time.
pub proof fn lemma_purged_unexpired(s: Seq<TempBuff>, now: u64)
    ensures
        forall|k: int|
            0 <= k < purged_buffs(s, now).len() ==> (#[trigger] purged_buffs(s, now)[k]).expires_at_ms
                > now,
    decreases s.len(),
{
    if s.len() > 0 {
        lemma_purged_unexpired(s.drop_last(), now);
        let rest = purged_buffs(s.drop_last(), now);
        let cur = purged_buffs(s, now);
        assert forall|k: int| 0 <= k < cur.len() implies (#[trigger] cur[k]).expires_at_ms
            > now by {
            if s.last().expires_at_ms > now {
                if k < rest.len() {
                    assert(cur[k] == rest[k]);
                } else {
                    assert(cur[k] == s.last());
                }
            } else {
                assert(cur[k] == rest[k]);
            }
        }
    }
}

/// Cycling the inventory tab three times returns to the original tab:
/// the rotation `toggle_tab` performs, by its contract, is a three-cycle.
pub proof fn lemma_tab_cycle(t: InvTab)
    ensures
        next_tab(next_tab(next_tab(t))) == t,
{
}

/// Toggling a two-state overlay twice returns to the original state: the
/// flag flip that `toggle_inventory` and `toggle_stats` perform, by
/// their contracts, is an involution.
pub proof fn lemma_toggle_involution(open: bool)
    ensures
        !!open == open,
{
}

} // verus!

//! The battle engine: initiative, damage, deflection, fleeing and the
//! one-time victory consequences.
//!
//! Chance enters only through explicit roll parameters in `0 .. 100`; the
//! public entry that draws real rolls passes them down, so every outcome
//! a roll can produce is covered by the contracts here.

use vstd::prelude::*;

use crate::entity::{Equipment, EquipSlot, Player};
use crate::num::{clamp_stat, min_i32, sub_clamped};
use crate::strutil::u64_to_string;
use crate::tile::Tile;
use crate::world::{logged, BattleSession, Chest, GameState, Npc, NpcId, World};

use vstd::string::StrSliceExecFns;
use vstd::string::StringExecFns;

verus! {

/// The damage an attack stat deals: the attack scaled by six fifths,
/// truncated toward zero.
pub open spec fn damage_of(atk: int) -> int {
    if atk >= 0 {
        atk * 12 / 10
    } else {
        -((-atk) * 12 / 10)
    }
}

/// Whether a chance roll deflects an incoming hit: the defender negates
/// it with probability two percent per point of defense.
pub open spec fn spec_deflects(roll: u32, def: int) -> bool {
    (roll as int) < 2 * def
}

/// The enemy's hit points after one player attack.
pub open spec fn enemy_hp_after(ehp: int, deflected: bool, atk: int) -> int {
    if deflected {
        ehp
    } else {
        clamp_stat(ehp - damage_of(atk))
    }
}

/// The player's hit points after one enemy attack, never exceeding the
/// maximum.
pub open spec fn player_hp_after(php: int, pmax: int, deflected: bool, atk: int) -> int {
    if deflected {
        php
    } else {
        vstd::math::min(clamp_stat(php - damage_of(atk)), pmax)
    }
}

/// The hit points of both sides, and whether a flee succeeded, after one
/// battle turn of option `opt` with rolls `r1` (first attack), `r2`
/// (second attack) and `rf` (flee), starting from world `w` and session
/// `bs` (with any penalty already applied). The result is (player hp,
/// enemy hp, fled).
#[verifier::opaque]
pub open spec fn turn_hps(w: World, bs: BattleSession, opt: u8, r1: u32, r2: u32, rf: u32) -> (
    int,
    int,
    bool,
) {
    let clock = w.clock_ms;
    let patk = w.player.spec_attack(clock);
    let pdef = w.player.spec_defense(clock);
    let php = w.player.hp as int;
    let pmax = w.player.max_hp as int;
    let ehp = bs.enemy_hp as int;
    let pfirst = if bs.penalty_mode {
        false
    } else {
        w.player.spec_speed(clock) >= bs.enemy_speed
    };
    if opt == 1 {
        if pfirst {
            let e1 = enemy_hp_after(ehp, spec_deflects(r1, bs.enemy_def as int), patk);
            if e1 > 0 {
                (
                    player_hp_after(php, pmax, spec_deflects(r2, pdef), bs.enemy_atk as int),
                    e1,
                    false,
                )
            } else {
                (php, e1, false)
            }
        } else {
            let p1 = player_hp_after(php, pmax, spec_deflects(r1, pdef), bs.enemy_atk as int);
            if p1 > 0 {
                (p1, enemy_hp_after(ehp, spec_deflects(r2, bs.enemy_def as int), patk), false)
            } else {
                (p1, ehp, false)
            }
        }
    } else if opt == 2 {
        (player_hp_after(php, pmax, spec_deflects(r1, pdef), bs.enemy_atk as int), ehp, false)
    } else if opt == 3 {
        if bs.player_initiated {
            (player_hp_after(php, pmax, spec_deflects(r1, pdef), bs.enemy_atk as int), ehp, false)
        } else if rf < 50 {
            (php, ehp, true)
        } else {
            (player_hp_after(php, pmax, spec_deflects(r1, pdef), bs.enemy_atk as int), ehp, false)
        }
    } else {
        (php, ehp, false)
    }
}

/// What one battle turn of the controller guarantees for given rolls:
/// relates the world before the turn (after buff purge) to the world
/// after it. The session is updated or cleared exactly as `turn_hps`
/// dictates, with victory leading into the post-battle dialogue.
pub open spec fn battle_turn_post(
    w0: World,
    w1: World,
    opt: u8,
    pen: bool,
    r1: u32,
    r2: u32,
    rf: u32,
) -> bool {
    let bs_old = w0.battle->Some_0;
    let bs0 = BattleSession {
        penalty_mode: pen || bs_old.penalty_mode,
        player_initiated: bs_old.player_initiated || (opt == 1 && !pen && bs_old.enemy_speed
            < w0.player.spec_speed(w0.clock_ms)),
        ..bs_old
    };
    let o = turn_hps(w0, bs0, opt, r1, r2, rf);
    let won = o.1 <= 0;
    let ended = won || o.0 <= 0 || o.2;
    &&& w1.player.hp as int == o.0
    &&& (w1.battle is None <==> ended)
    &&& (!ended ==> w1.state == GameState::Battle && (w1.battle matches Some(b)
        && !b.penalty_mode))
    &&& (ended && !won ==> w1.state == GameState::Playing)
    &&& (ended && won ==> w1.state == GameState::Dialogue)
}

/// The cursed reward sword Mah leaves behind.
pub open spec fn is_weeping_dagger(e: Equipment) -> bool {
    &&& e.name@ == "Weeping Dagger"@
    &&& e.slot == EquipSlot::Sword
    &&& e.hp_bonus == -100
    &&& e.atk_bonus == -100
    &&& e.def_bonus == -100
    &&& e.speed_bonus == -100
}

/// The healing reward shield Mah leaves behind.
pub open spec fn is_shield_of_healing(e: Equipment) -> bool {
    &&& e.name@ == "Shield of healing"@
    &&& e.slot == EquipSlot::Shield
    &&& e.hp_bonus == 2
    &&& e.atk_bonus == 0
    &&& e.def_bonus == 10
    &&& e.speed_bonus == 0
}

/// The first roster index at or after `i` holding NPC identity `id`.
pub open spec fn first_npc_with(npcs: Seq<Npc>, id: NpcId, i: int) -> Option<int>
    decreases npcs.len() - i,
{
    if i < 0 || i >= npcs.len() {
        None
    } else if npcs[i].id == id {
        Some(i)
    } else {
        first_npc_with(npcs, id, i + 1)
    }
}

impl World {
    /// The damage formula: attack scaled by six fifths, truncated toward
    /// zero.
    pub fn calc_damage(atk: i32) -> (r: i32)
        requires
            -1000000 <= atk <= 1000000,
        ensures
            r as int == damage_of(atk as int),
    {
        if atk >= 0 {
            ((atk as i64 * 12) / 10) as i32
        } else {
            (-(((-(atk as i64)) * 12) / 10)) as i32
        }
    }

    /// Whether a roll deflects a hit against the given defense.
    pub fn try_deflect(roll: u32, def: i32) -> (r: bool)
        ensures
            r == spec_deflects(roll, def as int),
    {
        (roll as i64) < 2 * (def as i64)
    }

    /// Start a battle against one of the three adversaries; any other
    /// identity starts nothing.
    pub fn start_battle(&mut self, enemy_id: NpcId)
        requires
            old(self).wf(),
            old(self).state == GameState::Playing,
        ensures
            final(self).wf(),
            ({
                let fights = enemy_id == NpcId::Shab || enemy_id == NpcId::Krad || enemy_id
                    == NpcId::Mah;
                if fights {
                    &&& final(self).state == GameState::Battle
                    &&& *final(self) == (World {
                        battle: final(self).battle,
                        state: GameState::Battle,
                        logs: final(self).logs,
                        ..*old(self)
                    })
                    &&& logged(
                        old(self).logs@,
                        final(self).logs@,
                        "Battle started against "@ + final(self).battle->Some_0.enemy_name@
                            + "!"@,
                    )
                    &&& final(self).battle matches Some(b) && {
                        &&& b.enemy_id == enemy_id
                        &&& !b.penalty_mode
                        &&& !b.player_initiated
                        &&& b.enemy_hp == b.enemy_max_hp
                        &&& (enemy_id == NpcId::Shab ==> b.enemy_hp == 10 && b.enemy_atk == 3
                            && b.enemy_def == 0 && b.enemy_speed == 4)
                        &&& (enemy_id == NpcId::Krad ==> b.enemy_hp == 20 && b.enemy_atk == 6
                            && b.enemy_def == 4 && b.enemy_speed == 0)
                        &&& (enemy_id == NpcId::Mah ==> b.enemy_hp == 30 && b.enemy_atk == 12
                            && b.enemy_def == 10 && b.enemy_speed == 8)
                    }
                } else {
                    *final(self) == *old(self)
                }
            }),
    {
        let name: &str;
        let hp: i32;
        let atk: i32;
        let def: i32;
        let spd: i32;
        match enemy_id {
            NpcId::Shab => {
                name = "Shab";
                hp = 10;
                atk = 3;
                def = 0;
                spd = 4;
            },
            NpcId::Krad => {
                name = "Krad";
                hp = 20;
                atk = 6;
                def = 4;
                spd = 0;
            },
            NpcId::Mah => {
                name = "Mah";
                hp = 30;
                atk = 12;
                def = 10;
                spd = 8;
            },
            _ => {
                return ;
            },
        }
        self.battle = Some(
            BattleSession {
                enemy_id,
                enemy_name: name.to_owned(),
                enemy_hp: hp,
                enemy_max_hp: hp,
                enemy_atk: atk,
                enemy_def: def,
                enemy_speed: spd,
                penalty_mode: false,
                player_initiated: false,
            },
        );
        self.state = GameState::Battle;
        let mut m = String::from_str("Battle started against ");
        m.append(name);
        m.append("!");
        self.push_log(m);
    }

    /// One player attack against the enemy, decided by one roll.
    fn perform_player_attack(&mut self, bs: &mut BattleSession, roll: u32)
        requires
            old(self).wf_core(),
            old(bs).wf(),
        ensures
            final(self).wf_core(),
            *final(self) == (World { logs: final(self).logs, ..*old(self) }),
            final(bs).wf(),
            *final(bs) == (BattleSession { enemy_hp: final(bs).enemy_hp, ..*old(bs) }),
            final(bs).enemy_hp as int == enemy_hp_after(
                old(bs).enemy_hp as int,
                spec_deflects(roll, old(bs).enemy_def as int),
                old(self).player.spec_attack(old(self).clock_ms),
            ),
            logged(
                old(self).logs@,
                final(self).logs@,
                if spec_deflects(roll, old(bs).enemy_def as int) {
                    old(bs).enemy_name@ + " deflected your attack!"@
                } else {
                    "You hit "@ + old(bs).enemy_name@ + " for "@ + crate::strutil::i32_chars(
                        damage_of(old(self).player.spec_attack(old(self).clock_ms)),
                    ) + " dmg."@
                },
            ),
    {
        let clock = self.clock_ms;
        let dmg = Self::calc_damage(self.player.attack(clock));
        if Self::try_deflect(roll, bs.enemy_def) {
            let mut m = String::from_str("");
            m.append(bs.enemy_name.as_str());
            m.append(" deflected your attack!");
            proof {
                reveal_strlit("");
                assert(m@ =~= bs.enemy_name@ + " deflected your attack!"@);
            }
            self.push_log(m);
        } else {
            bs.enemy_hp = sub_clamped(bs.enemy_hp, dmg);
            let mut m = String::from_str("You hit ");
            m.append(bs.enemy_name.as_str());
            m.append(" for ");
            if dmg >= 0 {
                m.append(u64_to_string(dmg as u64).as_str());
            } else {
                m.append(crate::strutil::i32_to_string(dmg).as_str());
            }
            m.append(" dmg.");
            proof {
                assert(m@ =~= "You hit "@ + bs.enemy_name@ + " for "@
                    + crate::strutil::i32_chars(dmg as int) + " dmg."@);
            }
            self.push_log(m);
        }
    }

    /// One enemy attack against the player, decided by one roll.
    fn perform_enemy_attack(&mut self, bs: &BattleSession, roll: u32)
        requires
            old(self).wf_core(),
            bs.wf(),
        ensures
            final(self).wf_core(),
            *final(self) == (World {
                player: final(self).player,
                logs: final(self).logs,
                ..*old(self)
            }),
            final(self).player == (Player { hp: final(self).player.hp, ..old(self).player }),
            final(self).player.hp as int == player_hp_after(
                old(self).player.hp as int,
                old(self).player.max_hp as int,
                spec_deflects(roll, old(self).player.spec_defense(old(self).clock_ms)),
                bs.enemy_atk as int,
            ),
            logged(
                old(self).logs@,
                final(self).logs@,
                if spec_deflects(roll, old(self).player.spec_defense(old(self).clock_ms)) {
                    "You deflected "@ + bs.enemy_name@ + "'s attack!"@
                } else {
                    bs.enemy_name@ + " hit you for "@ + crate::strutil::i32_chars(
                        damage_of(bs.enemy_atk as int),
                    ) + " dmg."@
                },
            ),
    {
        let clock = self.clock_ms;
        let dmg = Self::calc_damage(bs.enemy_atk);
        if Self::try_deflect(roll, self.player.defense(clock)) {
            let mut m = String::from_str("You deflected ");
            m.append(bs.enemy_name.as_str());
            m.append("'s attack!");
            proof {
                assert(m@ =~= "You deflected "@ + bs.enemy_name@ + "'s attack!"@);
            }
            self.push_log(m);
        } else {
            self.player.hp = min_i32(sub_clamped(self.player.hp, dmg), self.player.max_hp);
            let mut m = String::from_str("");
            m.append(bs.enemy_name.as_str());
            m.append(" hit you for ");
            if dmg >= 0 {
                m.append(u64_to_string(dmg as u64).as_str());
            } else {
                m.append(crate::strutil::i32_to_string(dmg).as_str());
            }
            m.append(" dmg.");
            proof {
                reveal_strlit("");
                assert(m@ =~= bs.enemy_name@ + " hit you for "@ + crate::strutil::i32_chars(
                    dmg as int,
                ) + " dmg."@);
            }
            self.push_log(m);
        }
    }

    /// Resolve one battle turn with explicit chance rolls: `r1` decides
    /// the first attack's deflection, `r2` the second's, `rf` the flee
    /// attempt. The decision penalty forces enemy-first initiative for
    /// this turn only: a surviving session never carries it over. The
    /// session ends exactly when one side's hit points reach zero or a
    /// flee succeeds; victory triggers the one-time win consequences.
    #[verifier::rlimit(100)]
    #[verifier::spinoff_prover]
    pub fn apply_battle_turn(&mut self, opt: u8, penalty: bool, r1: u32, r2: u32, rf: u32)
        requires
            old(self).wf(),
            old(self).state == GameState::Battle,
        ensures
            final(self).wf(),
            final(self).clock_ms == old(self).clock_ms,
            final(self).seed == old(self).seed,
            final(self).current == old(self).current,
            final(self).inventory_open == old(self).inventory_open,
            final(self).stats_open == old(self).stats_open,
            final(self).player == (Player { hp: final(self).player.hp, ..old(self).player }),
            final(self).mayor_done == old(self).mayor_done,
            final(self).noor_done == old(self).noor_done,
            final(self).lamp_done == old(self).lamp_done,
            old(self).shab_defeated ==> final(self).shab_defeated,
            old(self).krad_defeated ==> final(self).krad_defeated,
            old(self).mah_defeated ==> final(self).mah_defeated,
            (opt == 3 && !old(self).battle->Some_0.player_initiated && rf < 50 && old(
                self,
            ).battle->Some_0.enemy_hp > 0 && old(self).player.hp > 0) ==> logged(
                old(self).logs@,
                final(self).logs@,
                "You fled the battle!"@,
            ),
            ({
                let bs0 = BattleSession {
                    penalty_mode: penalty || old(self).battle->Some_0.penalty_mode,
                    ..old(self).battle->Some_0
                };
                let o = turn_hps(*old(self), bs0, opt, r1, r2, rf);
                let won = o.1 <= 0;
                let ended = won || o.0 <= 0 || o.2;
                &&& final(self).player.hp as int == o.0
                &&& (final(self).battle is None <==> ended)
                &&& (!ended ==> {
                    &&& final(self).state == GameState::Battle
                    &&& final(self).battle matches Some(b) && b == (BattleSession {
                        enemy_hp: b.enemy_hp,
                        penalty_mode: false,
                        ..bs0
                    }) && b.enemy_hp as int == o.1
                })
                &&& (ended && !won ==> final(self).state == GameState::Playing && final(self).dialogue is None)
                &&& (!won ==> final(self).levels@ == old(self).levels@ && final(self).npcs@
                    == old(self).npcs@)
                &&& (ended && won ==> final(self).state == GameState::Dialogue && final(self).dialogue is Some && (old(self).battle->Some_0.enemy_id == NpcId::Shab
                    ==> final(self).shab_defeated) && (old(self).battle->Some_0.enemy_id
                    == NpcId::Krad ==> final(self).krad_defeated) && (old(self).battle->Some_0.enemy_id == NpcId::Mah ==> final(self).mah_defeated))
            }),
    {
        proof {
            reveal(turn_hps);
        }
        let bs_opt = self.battle.take();
        let mut bs = match bs_opt {
            Some(b) => b,
            None => {
                return ;
            },
        };
        if penalty {
            bs.penalty_mode = true;
        }
        let clock = self.clock_ms;
        let p_spd = self.player.speed(clock);
        let e_spd = bs.enemy_speed;
        let player_first = if bs.penalty_mode {
            false
        } else {
            p_spd >= e_spd
        };
        let mut end_battle = false;
        let mut fled = false;
        if opt == 1 {
            if player_first {
                self.perform_player_attack(&mut bs, r1);
                if bs.enemy_hp > 0 {
                    self.perform_enemy_attack(&bs, r2);
                }
            } else {
                self.perform_enemy_attack(&bs, r1);
                if self.player.hp > 0 {
                    self.perform_player_attack(&mut bs, r2);
                }
            }
        } else if opt == 2 {
            self.perform_enemy_attack(&bs, r1);
        } else if opt == 3 {
            if bs.player_initiated {
                self.push_log(String::from_str("You started this, finish it!"));
                self.perform_enemy_attack(&bs, r1);
            } else if rf < 50 {
                self.push_log(String::from_str("You fled the battle!"));
                fled = true;
                end_battle = true;
            } else {
                self.push_log(String::from_str("Failed to flee!"));
                self.perform_enemy_attack(&bs, r1);
            }
        }
        let mut player_won = false;
        if bs.enemy_hp <= 0 {
            player_won = true;
            end_battle = true;
        }
        if self.player.hp <= 0 {
            end_battle = true;
        }
        if !end_battle {
            bs.penalty_mode = false;
            self.battle = Some(bs);
        } else if player_won {
            self.handle_win(bs.enemy_id);
        } else {
            self.state = GameState::Playing;
        }
    }

    /// The one-time consequences of defeating an adversary: its defeat
    /// flag is set and a short post-battle dialogue opens. Defeating Mah
    /// additionally removes him from the world and leaves two themed
    /// reward chests in room two.
    #[verifier::rlimit(100)]
    #[verifier::spinoff_prover]
    fn handle_win(&mut self, id: NpcId)
        requires
            old(self).wf_core(),
            old(self).battle is None,
            old(self).dialogue is None,
        ensures
            final(self).wf(),
            final(self).clock_ms == old(self).clock_ms,
            final(self).seed == old(self).seed,
            final(self).inventory_open == old(self).inventory_open,
            final(self).stats_open == old(self).stats_open,
            final(self).state == GameState::Dialogue,
            final(self).dialogue is Some,
            final(self).battle is None,
            final(self).player == old(self).player,
            final(self).current == old(self).current,
            id == NpcId::Shab ==> final(self).shab_defeated,
            id == NpcId::Krad ==> final(self).krad_defeated,
            id == NpcId::Mah ==> final(self).mah_defeated,
            id != NpcId::Mah ==> final(self).levels@ == old(self).levels@ && final(self).npcs@
                == old(self).npcs@,
            final(self).mayor_done == old(self).mayor_done,
            final(self).noor_done == old(self).noor_done,
            final(self).lamp_done == old(self).lamp_done,
            final(self).shab_defeated == (old(self).shab_defeated || id == NpcId::Shab),
            final(self).krad_defeated == (old(self).krad_defeated || id == NpcId::Krad),
            final(self).mah_defeated == (old(self).mah_defeated || id == NpcId::Mah),
            final(self).logs@.len() > 0 && final(self).logs@.last()@ == "You won the battle!"@,
            // Defeating Mah removes him from the roster and leaves the
            // Weeping Dagger chest on his tile plus a Shield of healing
            // chest elsewhere on the second level's map.
            id == NpcId::Mah ==> match first_npc_with(old(self).npcs@, NpcId::Mah, 0) {
                Some(j) => {
                    let bx = old(self).npcs@[j].x;
                    let by = old(self).npcs@[j].y;
                    let lv1 = old(self).levels@[1];
                    &&& final(self).npcs@ == old(self).npcs@.remove(j)
                    &&& (if lv1.map.spec_in_bounds(bx as int, by as int) {
                        &&& final(self).levels@[0] == old(self).levels@[0]
                        &&& final(self).levels@[1].door == lv1.door
                        &&& final(self).levels@[1].chests@.len() == lv1.chests@.len() + 2
                        &&& final(self).levels@[1].chests@.subrange(0, lv1.chests@.len() as int)
                            == lv1.chests@
                        &&& ({
                            let c = final(self).levels@[1].chests@[lv1.chests@.len() as int];
                            &&& (c.x, c.y) == (bx, by)
                            &&& c.item is None
                            &&& !c.opened
                            &&& c.weapon matches Some(e) && is_weeping_dagger(e)
                        })
                        &&& ({
                            let c = final(self).levels@[1].chests@.last();
                            &&& final(self).levels@[1].map.spec_in_bounds(
                                c.x as int,
                                c.y as int,
                            )
                            &&& c.item is None
                            &&& !c.opened
                            &&& c.weapon matches Some(e) && is_shield_of_healing(e)
                        })
                        // The shield chest lands on a floor tile of the
                        // dagger-updated map, at Chebyshev distance at
                        // least ten from the dagger chest, the door and
                        // every earlier chest, when such a tile exists;
                        // else on a floor tile outside those cells when
                        // one exists; else on the door cell.
                        &&& ({
                            let w1 = lv1.map.width as int;
                            let mid_tiles = lv1.map.tiles@.update(
                                crate::world::cell_idx((bx, by), w1),
                                Tile::Chest,
                            );
                            let taken0 = seq![(bx, by), lv1.door] + lv1.chests@.map_values(
                                |ch: Chest| (ch.x, ch.y),
                            ).push((bx, by));
                            let floors1 = crate::world::floor_cells(
                                mid_tiles,
                                w1,
                                mid_tiles.len() as int,
                            );
                            let spaced1 = crate::world::cells_spaced(
                                floors1,
                                taken0,
                                10,
                                floors1.len() as int,
                            );
                            let cand1 = crate::world::cells_not_in(
                                floors1,
                                taken0,
                                floors1.len() as int,
                            );
                            let cp = (
                                final(self).levels@[1].chests@.last().x,
                                final(self).levels@[1].chests@.last().y,
                            );
                            if spaced1.len() > 0 {
                                &&& mid_tiles[crate::world::cell_idx(cp, w1)] == Tile::Floor
                                &&& crate::world::spaced_from(cp, taken0, 10)
                            } else if cand1.len() > 0 {
                                &&& mid_tiles[crate::world::cell_idx(cp, w1)] == Tile::Floor
                                &&& !taken0.contains(cp)
                            } else {
                                cp == lv1.door
                            }
                        })
                        &&& final(self).levels@[1].map.tiles@ == lv1.map.tiles@.update(
                            crate::world::cell_idx((bx, by), lv1.map.width as int),
                            Tile::Chest,
                        ).update(
                            crate::world::cell_idx(
                                (
                                    final(self).levels@[1].chests@.last().x,
                                    final(self).levels@[1].chests@.last().y,
                                ),
                                lv1.map.width as int,
                            ),
                            Tile::Chest,
                        )
                    } else {
                        final(self).levels@ == old(self).levels@
                    })
                },
                None => final(self).npcs@ == old(self).npcs@ && final(self).levels@ == old(
                    self,
                ).levels@,
            },
    {
        match id {
            NpcId::Shab => {
                self.shab_defeated = true;
                let mut pages: Vec<String> = Vec::new();
                pages.push(
                    String::from_str("I can't believe I lost to the likes of you..."),
                );
                self.start_dialogue_raw("Shab", pages);
            },
            NpcId::Krad => {
                self.krad_defeated = true;
                let mut pages: Vec<String> = Vec::new();
                pages.push(String::from_str("My armor...."));
                self.start_dialogue_raw("Krad", pages);
            },
            NpcId::Mah => {
                self.mah_defeated = true;
                let n = self.npcs.len();
                let mut pos_idx: Option<usize> = None;
                let mut i: usize = 0;
                while i < n
                    invariant
                        n == self.npcs@.len(),
                        i <= n,
                        pos_idx is None ==> first_npc_with(self.npcs@, NpcId::Mah, 0)
                            == first_npc_with(self.npcs@, NpcId::Mah, i as int),
                        pos_idx matches Some(j) ==> j < i && first_npc_with(
                            self.npcs@,
                            NpcId::Mah,
                            0,
                        ) == Some(j as int),
                    decreases n - i,
                {
                    if pos_idx.is_none() && matches!(self.npcs[i].id, NpcId::Mah) {
                        pos_idx = Some(i);
                    }
                    i = i + 1;
                }
                if let Some(pi) = pos_idx {
                    let ghost old_npcs = self.npcs@;
                    let npc = self.npcs.remove(pi);
                    proof {
                        assert forall|k: int| 0 <= k < self.npcs@.len() implies {
                            let n2 = #[trigger] self.npcs@[k];
                            &&& n2.room < 2
                            &&& self.levels@[n2.room as int].map.spec_in_bounds(
                                n2.x as int,
                                n2.y as int,
                            )
                        } by {
                            if k < pi {
                                assert(self.npcs@[k] == old_npcs[k]);
                            } else {
                                assert(self.npcs@[k] == old_npcs[k + 1]);
                            }
                        }
                    }
                    let bx = npc.x;
                    let by = npc.y;
                    let ghost old_lv1_pre = self.levels@[1];
                    let in_b = self.levels[1].map.in_bounds(bx, by);
                    if in_b {
                        let dagger = Chest {
                            x: bx,
                            y: by,
                            item: None,
                            weapon: Some(
                                Equipment {
                                    name: String::from_str("Weeping Dagger"),
                                    slot: EquipSlot::Sword,
                                    hp_bonus: -100,
                                    atk_bonus: -100,
                                    def_bonus: -100,
                                    speed_bonus: -100,
                                },
                            ),
                            opened: false,
                        };
                        let ghost old_chests = self.levels@[1].chests@;
                        self.levels[1].chests.push(dagger);
                        self.levels[1].map.set(bx as usize, by as usize, Tile::Chest);
                        let door1 = self.levels[1].door;
                        let mut taken: Vec<(i32, i32)> = Vec::new();
                        taken.push((bx, by));
                        taken.push(door1);
                        let ghost mid_chests = self.levels@[1].chests@;
                        let cn = self.levels[1].chests.len();
                        let mut k: usize = 0;
                        while k < cn
                            invariant
                                self.levels@.len() == 2,
                                self.levels@[1].wf(),
                                mid_chests == self.levels@[1].chests@,
                                cn == self.levels@[1].chests@.len(),
                                k <= cn,
                                taken@ == seq![(bx, by), door1] + mid_chests.subrange(
                                    0,
                                    k as int,
                                ).map_values(|ch: Chest| (ch.x, ch.y)),
                            decreases cn - k,
                        {
                            let c = (self.levels[1].chests[k].x, self.levels[1].chests[k].y);
                            taken.push(c);
                            proof {
                                assert(mid_chests.subrange(0, k as int + 1).map_values(
                                    |ch: Chest| (ch.x, ch.y),
                                ) =~= mid_chests.subrange(0, k as int).map_values(
                                    |ch: Chest| (ch.x, ch.y),
                                ).push((mid_chests[k as int].x, mid_chests[k as int].y)));
                                assert(taken@ =~= seq![(bx, by), door1] + mid_chests.subrange(
                                    0,
                                    k as int + 1,
                                ).map_values(|ch: Chest| (ch.x, ch.y)));
                            }
                            k = k + 1;
                        }
                        proof {
                            assert(mid_chests.subrange(0, cn as int) =~= mid_chests);
                            assert(mid_chests =~= old_lv1_pre.chests@.push(dagger));
                            assert(mid_chests.map_values(|ch: Chest| (ch.x, ch.y))
                                =~= old_lv1_pre.chests@.map_values(|ch: Chest| (ch.x, ch.y)).push(
                                (bx, by),
                            ));
                            assert(taken@ =~= seq![(bx, by), old_lv1_pre.door] + old_lv1_pre.chests@.map_values(
                                |ch: Chest| (ch.x, ch.y),
                            ).push((bx, by)));
                        }
                        let spot = self.random_floor_spaced(1, &taken, 10, door1);
                        let shield_chest = Chest {
                            x: spot.0,
                            y: spot.1,
                            item: None,
                            weapon: Some(
                                Equipment {
                                    name: String::from_str("Shield of healing"),
                                    slot: EquipSlot::Shield,
                                    hp_bonus: 2,
                                    atk_bonus: 0,
                                    def_bonus: 10,
                                    speed_bonus: 0,
                                },
                            ),
                            opened: false,
                        };
                        self.levels[1].chests.push(shield_chest);
                        self.levels[1].map.set(spot.0 as usize, spot.1 as usize, Tile::Chest);
                        proof {
                            assert(self.levels@[1].chests@.subrange(0, old_chests.len() as int)
                                =~= old_chests);
                        }
                    }
                }
                let mut pages: Vec<String> = Vec::new();
                pages.push(String::from_str("I underestimated you..."));
                pages.push(String::from_str("Listen, Sol, is not..."));
                pages.push(String::from_str("what"));
                pages.push(String::from_str("you"));
                pages.push(String::from_str("thin-"));
                self.start_dialogue_raw("Mah", pages);
            },
            _ => {
                let mut pages: Vec<String> = Vec::new();
                pages.push(String::from_str("You won the battle!"));
                self.start_dialogue_raw("Victory", pages);
            },
        }
        self.push_log(String::from_str("You won the battle!"));
    }
}

/// Within a single fight turn whose attack values are non-negative,
/// neither combatant's hit points increase under any chance rolls, in
/// any sub-step order; together with `battle_turn_post`, the session is
/// cleared exactly when one side's hit points reach zero or a flee
/// succeeds.
pub proof fn lemma_fight_turn_monotone(
    w: World,
    bs: BattleSession,
    opt: u8,
    r1: u32,
    r2: u32,
    rf: u32,
)
    requires
        bs.wf(),
        -1000000 <= w.player.hp,
        w.player.spec_attack(w.clock_ms) >= 0,
        bs.enemy_atk >= 0,
    ensures
        turn_hps(w, bs, opt, r1, r2, rf).0 <= w.player.hp,
        turn_hps(w, bs, opt, r1, r2, rf).1 <= bs.enemy_hp,
{
    reveal(turn_hps);
    let patk = w.player.spec_attack(w.clock_ms);
    assert(patk * 12 >= 0) by (nonlinear_arith)
        requires
            patk >= 0,
    ;
    assert(patk * 12 / 10 >= 0) by (nonlinear_arith)
        requires
            patk * 12 >= 0,
    ;
    let eatk = bs.enemy_atk as int;
    assert(eatk * 12 >= 0) by (nonlinear_arith)
        requires
            eatk >= 0,
    ;
    assert(eatk * 12 / 10 >= 0) by (nonlinear_arith)
        requires
            eatk * 12 >= 0,
    ;
}

} // verus!

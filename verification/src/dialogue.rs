//! The dialogue and quest engine: paginated sessions, pending choices and
//! persistent quest flags.

use vstd::prelude::*;

use crate::entity::{Equipment, EquipSlot, Player};
use crate::num::{add_clamped, clamp_stat, min_i32};
use crate::world::{AwaitingChoice, DialogueSession, GameState, NpcId, World};

use vstd::string::StrSliceExecFns;
use vstd::string::StringExecFns;

verus! {

/// The pending choice a fresh session for `id` carries, given the quest
/// flags: the mayor's yes/no question before his quest is accepted, and
/// Noor's weapon choice before it is made.
pub open spec fn expected_awaiting(id: NpcId, mayor_done: bool, noor_done: bool) -> Option<
    AwaitingChoice,
> {
    if id == NpcId::MayorSol && !mayor_done {
        Some(AwaitingChoice::YesNoMayor)
    } else if id == NpcId::Noor && !noor_done {
        Some(AwaitingChoice::ABNoorWeapon)
    } else {
        None
    }
}

/// The log line announcing a chest consumable used on the spot: its name
/// and the signed hit-point change it caused.
pub open spec fn chest_use_line(name: Seq<char>, healed: int) -> Seq<char> {
    "Used "@ + name + " ("@ + crate::strutil::signed_chars(healed) + " HP)."@
}

/// The basic sword Noor and Lamp hand out.
pub open spec fn is_basic_sword(e: Equipment) -> bool {
    &&& e.name@ == "Basic Sword"@
    &&& e.slot == EquipSlot::Sword
    &&& e.hp_bonus == 0
    &&& e.atk_bonus == 3
    &&& e.def_bonus == 0
    &&& e.speed_bonus == 3
}

/// The basic shield Noor and Lamp hand out.
pub open spec fn is_basic_shield(e: Equipment) -> bool {
    &&& e.name@ == "Basic Shield"@
    &&& e.slot == EquipSlot::Shield
    &&& e.hp_bonus == 0
    &&& e.atk_bonus == 0
    &&& e.def_bonus == 3
    &&& e.speed_bonus == -2
}

impl World {
    /// The basic sword as a value.
    pub(crate) fn basic_sword() -> (r: Equipment)
        ensures
            is_basic_sword(r),
    {
        Equipment {
            name: String::from_str("Basic Sword"),
            slot: EquipSlot::Sword,
            hp_bonus: 0,
            atk_bonus: 3,
            def_bonus: 0,
            speed_bonus: 3,
        }
    }

    /// The basic shield as a value.
    pub(crate) fn basic_shield() -> (r: Equipment)
        ensures
            is_basic_shield(r),
    {
        Equipment {
            name: String::from_str("Basic Shield"),
            slot: EquipSlot::Shield,
            hp_bonus: 0,
            atk_bonus: 0,
            def_bonus: 3,
            speed_bonus: -2,
        }
    }

    /// Open a plain titled session with no pending choice.
    pub fn start_dialogue_raw(&mut self, title: &str, pages: Vec<String>)
        requires
            old(self).wf_core(),
            old(self).battle is None,
            pages@.len() > 0,
        ensures
            final(self).wf(),
            *final(self) == (World {
                dialogue: final(self).dialogue,
                state: GameState::Dialogue,
                ..*old(self)
            }),
            final(self).state == GameState::Dialogue,
            final(self).dialogue matches Some(d) && {
                &&& d.npc == NpcId::Random1
                &&& d.page_index == 0
                &&& d.pages@ == pages@
                &&& d.awaiting is None
            },
    {
        self.dialogue = Some(
            DialogueSession {
                npc: NpcId::Random1,
                title: title.to_owned(),
                pages,
                page_index: 0,
                awaiting: None,
            },
        );
        self.state = GameState::Dialogue;
    }

    /// Open the session for NPC `id`, whose content branches on the
    /// persistent quest flags. First-time encounters with the mayor and
    /// with Noor carry their pending choices.
    pub fn start_dialogue_for(&mut self, id: NpcId, name: String)
        requires
            old(self).wf(),
            old(self).state == GameState::Playing,
        ensures
            final(self).wf(),
            *final(self) == (World {
                dialogue: final(self).dialogue,
                state: GameState::Dialogue,
                ..*old(self)
            }),
            final(self).state == GameState::Dialogue,
            final(self).dialogue matches Some(d) && {
                &&& d.npc == id
                &&& d.page_index == 0
                &&& d.pages@.len() > 0
                &&& d.awaiting == expected_awaiting(
                    id,
                    old(self).mayor_done,
                    old(self).noor_done,
                )
            },
            (id == NpcId::Noor && !old(self).noor_done ==> final(self).dialogue->Some_0.pages@.len() == 3),
    {
        let mut pages: Vec<String> = Vec::new();
        let mut awaiting: Option<AwaitingChoice> = None;
        match id {
            NpcId::MayorSol => {
                if self.mayor_done {
                    pages.push(
                        String::from_str(
                            "Well, what're you still standing here for? GO TO NOOR!",
                        ),
                    );
                } else {
                    pages.push(
                        String::from_str(
                            "Welcome to Sunny Days, visitor! I am Mayor Sol. We are normally much more able to take in tourists, but you may have arrived at a bad time. The Weeping have made it a rough time, they have completely taken over the Weeping Willow forests.",
                        ),
                    );
                    pages.push(
                        String::from_str(
                            "What's that? The weeping sound like they belong in the Weeping Willow Forests? No! That's nonsense, the only reason they are called the weeping, is because they WEEP before they kill! I mean, is it not right there in the name? Keep up! Ok, but my friend, you MUST help us get them out. Without our Weeping Willow bark, we are losing our health! Please will you help? (Y/N)",
                        ),
                    );
                    awaiting = Some(AwaitingChoice::YesNoMayor);
                }
            },
            NpcId::Noor => {
                if self.noor_done {
                    pages.push(
                        String::from_str("Scram! Go to Lamp and get whatever you're missing!!"),
                    );
                } else {
                    pages.push(String::from_str("Hey there partner!"));
                    pages.push(
                        String::from_str(
                            "What's that, the Mayor sent you here? Damn Sol, always ruining my day. What! No not you, you seem okay... ish. So you're gonna go and fight the Weeping ay? Well you'll need a weapon. Grab one: (A) Basic Sword  (B) Basic Shield",
                        ),
                    );
                    pages.push(
                        String::from_str(
                            "Good choice! Now I'll keep the other one to be fair, if you want your second choice, go see Lamp!",
                        ),
                    );
                    awaiting = Some(AwaitingChoice::ABNoorWeapon);
                }
            },
            NpcId::Lamp => {
                if !self.noor_done {
                    pages.push(
                        String::from_str("Hey aren't you supposed to talk to Noor first?"),
                    );
                } else if self.lamp_done {
                    pages.push(
                        String::from_str(
                            "Well good luck, if you're fighting the Weeping, you'll need it!",
                        ),
                    );
                } else {
                    let missing: &str = if self.player.inventory.sword.is_none() {
                        "Sword"
                    } else {
                        "Shield"
                    };
                    let mut p1 = String::from_str(
                        "Hey! Did Noor send you? Yeah, they're a bit rough around the edges. So you're missing a ",
                    );
                    p1.append(missing);
                    p1.append(", well take this!");
                    pages.push(p1);
                    let mut p2 = String::from_str("You got the ");
                    p2.append(missing);
                    p2.append(".");
                    pages.push(p2);
                }
            },
            NpcId::Random1 => {
                pages.push(
                    String::from_str(
                        "Isn't it bad? So gloomy, so dark, I need some vitamin D pills or something!",
                    ),
                );
            },
            NpcId::Random2 => {
                pages.push(
                    String::from_str(
                        "I actually overheard the Mayor talking to himself, I think he's going a bit cukoo!!",
                    ),
                );
            },
            NpcId::Random3 => {
                pages.push(
                    String::from_str(
                        "Oh please, if you think the Weeping are bad, wait until you hear from the IRS!",
                    ),
                );
            },
            NpcId::Weeping1 => {
                pages.push(
                    String::from_str(
                        "I can't believe that's how they think of us in here, we literally get our name from the Weeping Willow trees that we LIVE in. Like come on!",
                    ),
                );
            },
            NpcId::Weeping2 => {
                pages.push(
                    String::from_str(
                        "It sure is cold out, all that global warming bibble babble is a hoax!",
                    ),
                );
            },
            NpcId::Weeping3 => {
                pages.push(
                    String::from_str(
                        "Have you talked to the guy who thinks global warming is fake? What a nut!",
                    ),
                );
            },
            NpcId::Weeping4 => {
                pages.push(String::from_str("I had a friend in that village..."));
                pages.push(String::from_str("His name meant bright, just like how he was."));
                pages.push(String::from_str("I wonder how he's doing..."));
            },
            NpcId::Shab => {
                if self.shab_defeated {
                    pages.push(String::from_str("Get away from me, I'm training..."));
                } else {
                    pages.push(
                        String::from_str(
                            "Hey! You're not supposed to be in here, who are you?!",
                        ),
                    );
                    pages.push(
                        String::from_str(
                            "Wait, nevermind, I couldn't care less, are you ready to die?!!!",
                        ),
                    );
                }
            },
            NpcId::Krad => {
                if self.krad_defeated {
                    pages.push(String::from_str("W-what do you want from me?!?!?!"));
                    pages.push(
                        String::from_str(
                            "LEAVE ME BE, you've shattered my honor, and my armor....",
                        ),
                    );
                    pages.push(String::from_str(" *sniffles* "));
                } else {
                    pages.push(String::from_str("Who are you..."));
                    pages.push(String::from_str("Doesn't matter... my armor..."));
                    pages.push(String::from_str("IS IMPENETRABLE"));
                }
            },
            NpcId::Mah => {
                if self.shab_defeated && self.krad_defeated {
                    pages.push(String::from_str("You low-class scum"));
                    pages.push(String::from_str("You come into my home, my community..."));
                    pages.push(String::from_str("AND KILL MY MEN?!?!?!"));
                } else {
                    pages.push(
                        String::from_str(
                            "Insignificant being, begone from my sight, my men will handle you...",
                        ),
                    );
                }
            },
        }
        self.dialogue = Some(
            DialogueSession { npc: id, title: name, pages, page_index: 0, awaiting },
        );
        self.state = GameState::Dialogue;
    }

    /// Advance the session: turn to the next page if one exists;
    /// otherwise close it, which for an undefeated adversary leads
    /// straight into battle.
    pub fn dialogue_continue(&mut self)
        requires
            old(self).wf(),
            old(self).state == GameState::Dialogue,
        ensures
            final(self).wf(),
            final(self).clock_ms == old(self).clock_ms,
            final(self).seed == old(self).seed,
            final(self).player == old(self).player,
            final(self).current == old(self).current,
            final(self).inventory_open == old(self).inventory_open,
            final(self).stats_open == old(self).stats_open,
            final(self).mayor_done == old(self).mayor_done,
            final(self).noor_done == old(self).noor_done,
            final(self).lamp_done == old(self).lamp_done,
            final(self).shab_defeated == old(self).shab_defeated,
            final(self).krad_defeated == old(self).krad_defeated,
            final(self).mah_defeated == old(self).mah_defeated,
            final(self).levels@ == old(self).levels@,
            final(self).npcs@ == old(self).npcs@,
            ({
                let d = old(self).dialogue->Some_0;
                if d.page_index + 1 < d.pages@.len() {
                    &&& final(self).dialogue == Some(
                        DialogueSession { page_index: (d.page_index + 1) as usize, ..d },
                    )
                    &&& *final(self) == (World {
                        dialogue: final(self).dialogue,
                        ..*old(self)
                    })
                } else {
                    let fights = (d.npc == NpcId::Shab && !old(self).shab_defeated) || (d.npc
                        == NpcId::Krad && !old(self).krad_defeated) || (d.npc == NpcId::Mah
                        && !old(self).mah_defeated && old(self).shab_defeated && old(self).krad_defeated);
                    &&& final(self).dialogue is None
                    &&& (fights ==> final(self).state == GameState::Battle && (final(self).battle matches Some(b) && b.enemy_id == d.npc && !b.player_initiated
                        && !b.penalty_mode))
                    &&& (!fights ==> final(self).state == GameState::Playing && final(self).battle is None && *final(self) == (World {
                        dialogue: None,
                        state: GameState::Playing,
                        ..*old(self)
                    }))
                }
            }),
    {
        let mut start_battle_id: Option<NpcId> = None;
        let advance: bool;
        match &self.dialogue {
            Some(d) => {
                proof {
                    assert(old(self).dialogue->Some_0.wf());
                }
                advance = d.page_index < d.pages.len() - 1;
            },
            None => {
                advance = false;
            },
        }
        if advance {
            let d_opt = self.dialogue.take();
            if let Some(mut d) = d_opt {
                proof {
                    assert(old(self).dialogue->Some_0.wf());
                }
                d.page_index = d.page_index + 1;
                self.dialogue = Some(d);
            }
        } else {
            match &self.dialogue {
                Some(d) => {
                    match d.npc {
                        NpcId::Shab => {
                            if !self.shab_defeated {
                                start_battle_id = Some(NpcId::Shab);
                            }
                        },
                        NpcId::Krad => {
                            if !self.krad_defeated {
                                start_battle_id = Some(NpcId::Krad);
                            }
                        },
                        NpcId::Mah => {
                            if !self.mah_defeated && self.shab_defeated && self.krad_defeated {
                                start_battle_id = Some(NpcId::Mah);
                            }
                        },
                        _ => {},
                    }
                },
                None => {},
            }
            self.dialogue = None;
            self.state = GameState::Playing;
            if let Some(id) = start_battle_id {
                self.start_battle(id);
            }
        }
    }

    /// Answer a pending choice with one case-insensitive character;
    /// unrecognized characters leave the session open on the same page.
    #[verifier::rlimit(100)]
    #[verifier::spinoff_prover]
    pub fn dialogue_choice(&mut self, c: char)
        requires
            old(self).wf(),
            old(self).state == GameState::Dialogue,
        ensures
            final(self).wf(),
            final(self).clock_ms == old(self).clock_ms,
            final(self).seed == old(self).seed,
            final(self).current == old(self).current,
            final(self).levels@ == old(self).levels@,
            final(self).npcs@ == old(self).npcs@,
            final(self).inventory_open == old(self).inventory_open,
            final(self).stats_open == old(self).stats_open,
            final(self).player.buffs == old(self).player.buffs,
            final(self).lamp_done == old(self).lamp_done,
            final(self).shab_defeated == old(self).shab_defeated,
            final(self).krad_defeated == old(self).krad_defeated,
            final(self).mah_defeated == old(self).mah_defeated,
            old(self).mayor_done ==> final(self).mayor_done,
            old(self).noor_done ==> final(self).noor_done,
            ({
                let d = old(self).dialogue->Some_0;
                match d.awaiting {
                    Some(AwaitingChoice::YesNoMayor) => {
                        if c == 'Y' || c == 'y' || c == 'N' || c == 'n' {
                            &&& final(self).mayor_done
                            &&& final(self).state == GameState::Dialogue
                            &&& final(self).dialogue matches Some(d2) && d2.awaiting is None
                                && d2.page_index == 0 && d2.pages@.len() == 1
                            &&& final(self).player == old(self).player
                        } else {
                            *final(self) == *old(self)
                        }
                    },
                    Some(AwaitingChoice::ABNoorWeapon) => {
                        if c == 'A' || c == 'a' {
                            &&& final(self).noor_done
                            &&& final(self).player.inventory.sword matches Some(e)
                                && is_basic_sword(e)
                            &&& final(self).player.inventory.shield == old(self).player.inventory.shield
                            &&& final(self).state == GameState::Dialogue
                            &&& final(self).dialogue matches Some(d2) && d2.awaiting is None
                        } else if c == 'B' || c == 'b' {
                            &&& final(self).noor_done
                            &&& final(self).player.inventory.shield matches Some(e)
                                && is_basic_shield(e)
                            &&& final(self).player.inventory.sword == old(self).player.inventory.sword
                            &&& final(self).state == GameState::Dialogue
                            &&& final(self).dialogue matches Some(d2) && d2.awaiting is None
                        } else {
                            *final(self) == *old(self)
                        }
                    },
                    Some(AwaitingChoice::Chest { room, x, y, item, weapon }) => {
                        if c == 'A' || c == 'a' {
                            &&& final(self).state == GameState::Playing
                            &&& final(self).dialogue is None
                            &&& (weapon matches Some(w) ==> final(self).player.inventory.backpack@ == old(self).player.inventory.backpack@.push(w) && final(self).player.inventory.consumables == old(self).player.inventory.consumables && crate::world::logged(
                                old(self).logs@,
                                final(self).logs@,
                                "Picked up "@ + w.name@ + "."@,
                            ))
                            &&& (item matches Some(it) ==> (weapon is None && old(self).player.inventory.consumables@.len() < 10 ==> final(self).player.inventory.consumables@ == old(self).player.inventory.consumables@.push(it) && crate::world::logged(
                                old(self).logs@,
                                final(self).logs@,
                                "Picked up "@ + it.name@ + "."@,
                            )))
                            &&& (weapon is None && item is Some && old(self).player.inventory.consumables@.len() >= 10 ==> final(self).player
                                == old(self).player && crate::world::logged(
                                old(self).logs@,
                                final(self).logs@,
                                "Slots full."@,
                            ))
                            &&& (weapon is None && item is None ==> final(self).player == old(self).player && final(self).logs@ == old(self).logs@)
                        } else if c == 'B' || c == 'b' {
                            &&& final(self).state == GameState::Playing
                            &&& final(self).dialogue is None
                            &&& (item matches Some(it) ==> final(self).player.hp as int
                                == vstd::math::min(
                                clamp_stat(old(self).player.hp + it.heal),
                                old(self).player.max_hp as int,
                            ) && final(self).player.buffs == old(self).player.buffs
                                && crate::world::logged(
                                old(self).logs@,
                                final(self).logs@,
                                chest_use_line(
                                    it.name@,
                                    clamp_stat(
                                        vstd::math::min(
                                            clamp_stat(old(self).player.hp + it.heal),
                                            old(self).player.max_hp as int,
                                        ) - old(self).player.hp,
                                    ),
                                ),
                            ))
                            &&& (item is None ==> final(self).player == old(self).player
                                && crate::world::logged(
                                old(self).logs@,
                                final(self).logs@,
                                "Cannot use that."@,
                            ))
                        } else if c == 'C' || c == 'c' {
                            &&& final(self).state == GameState::Playing
                            &&& final(self).dialogue is None
                            &&& final(self).player == old(self).player
                            &&& crate::world::logged(
                                old(self).logs@,
                                final(self).logs@,
                                "Left chest."@,
                            )
                        } else {
                            *final(self) == *old(self)
                        }
                    },
                    None => *final(self) == *old(self),
                }
            }),
    {
        let awaiting_kind: u8;
        match &self.dialogue {
            Some(d) => {
                match &d.awaiting {
                    Some(AwaitingChoice::YesNoMayor) => {
                        awaiting_kind = 1;
                    },
                    Some(AwaitingChoice::ABNoorWeapon) => {
                        awaiting_kind = 2;
                    },
                    Some(AwaitingChoice::Chest { .. }) => {
                        awaiting_kind = 3;
                    },
                    None => {
                        awaiting_kind = 0;
                    },
                }
            },
            None => {
                awaiting_kind = 0;
            },
        }
        if awaiting_kind == 1 {
            if c == 'Y' || c == 'y' || c == 'N' || c == 'n' {
                let yes = c == 'Y' || c == 'y';
                self.mayor_done = true;
                let mut pages: Vec<String> = Vec::new();
                if yes {
                    pages.push(
                        String::from_str(
                            "Why thank you! Now go talk to Noor to get you started.",
                        ),
                    );
                } else {
                    pages.push(
                        String::from_str(
                            "Aren't you rude, I've been nothing but kind. Fine, go to Noor to get you started I guess...",
                        ),
                    );
                }
                let d_opt = self.dialogue.take();
                if let Some(mut d) = d_opt {
                    d.awaiting = None;
                    d.pages = pages;
                    d.page_index = 0;
                    self.dialogue = Some(d);
                }
            }
        } else if awaiting_kind == 2 {
            if c == 'A' || c == 'a' || c == 'B' || c == 'b' {
                if c == 'A' || c == 'a' {
                    self.player.equip_sword(Self::basic_sword());
                } else {
                    self.player.equip_shield(Self::basic_shield());
                }
                self.noor_done = true;
                let d_opt = self.dialogue.take();
                if let Some(mut d) = d_opt {
                    d.awaiting = None;
                    let plen = d.pages.len();
                    proof {
                        assert(old(self).dialogue->Some_0.wf());
                    }
                    d.page_index = if plen > 2 {
                        2
                    } else {
                        plen - 1
                    };
                    self.dialogue = Some(d);
                }
            }
        } else if awaiting_kind == 3 {
            if !(c == 'A' || c == 'a' || c == 'B' || c == 'b' || c == 'C' || c == 'c') {
                return;
            }
            let d_opt = self.dialogue.take();
            let item: Option<crate::entity::Consumable>;
            let weapon: Option<Equipment>;
            match d_opt {
                Some(ds) => {
                    match ds.awaiting {
                        Some(AwaitingChoice::Chest { item: it, weapon: w, .. }) => {
                            item = it;
                            weapon = w;
                        },
                        _ => {
                            item = None;
                            weapon = None;
                        },
                    }
                },
                None => {
                    item = None;
                    weapon = None;
                },
            }
            if c == 'A' || c == 'a' {
                if let Some(w) = weapon {
                    let mut m = String::from_str("Picked up ");
                    m.append(w.name.as_str());
                    m.append(".");
                    self.player.inventory.backpack.push(w);
                    self.push_log(m);
                } else if let Some(cons) = item {
                    if self.player.inventory.consumables.len() < 10 {
                        let mut m = String::from_str("Picked up ");
                        m.append(cons.name.as_str());
                        m.append(".");
                        self.player.inventory.consumables.push(cons);
                        self.push_log(m);
                    } else {
                        self.push_log(String::from_str("Slots full."));
                    }
                }
                self.dialogue = None;
                self.state = GameState::Playing;
            } else if c == 'B' || c == 'b' {
                if let Some(cons) = item {
                    let before = self.player.hp;
                    self.player.hp = min_i32(
                        add_clamped(self.player.hp, cons.heal),
                        self.player.max_hp,
                    );
                    let healed = crate::num::sub_clamped(self.player.hp, before);
                    let mut m = String::from_str("Used ");
                    m.append(cons.name.as_str());
                    m.append(" (");
                    m.append(Self::fmt_hp_delta(healed).as_str());
                    m.append(").");
                    proof {
                        reveal_strlit(" HP");
                        reveal_strlit(").");
                        reveal_strlit(" HP).");
                        assert(m@ =~= chest_use_line(cons.name@, healed as int));
                    }
                    self.push_log(m);
                } else {
                    self.push_log(String::from_str("Cannot use that."));
                }
                self.dialogue = None;
                self.state = GameState::Playing;
            } else if c == 'C' || c == 'c' {
                self.push_log(String::from_str("Left chest."));
                self.dialogue = None;
                self.state = GameState::Playing;
            }
        }
    }
}

} // verus!

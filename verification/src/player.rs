use vstd::prelude::*;

use crate::text::str_eq;

verus! {

/// A weapon equipped by the player; damage rolls range over
/// `min_damage ..= max(max_damage, 1) + strength`.
pub struct Weapon {
    pub name: String,
    pub description: String,
    pub min_damage: i32,
    pub max_damage: i32,
}

/// A spell known by the player: casting spends `mp_cost` mana and deals a
/// fixed `damage` to the enemy.
pub struct Spell {
    pub name: String,
    pub description: String,
    pub mp_cost: i32,
    pub damage: i32,
}

/// The whole mutable player state for one session.
pub struct Player {
    pub name: String,
    pub hp: i32,
    pub max_hp: i32,
    pub mp: i32,
    pub max_mp: i32,
    pub equipped_weapon: Weapon,
    pub level: i32,
    pub strength: i32,
    pub defense: i32,
    pub exp: i32,
    pub gold: i32,
    pub inventory: Vec<String>,
    pub spell_inventory: Vec<Spell>,
}

/// The three leveling paths, each with a fixed stat-delta table.
#[derive(Clone, Copy, PartialEq, Eq, Structural, Debug)]
pub enum Archetype {
    Warrior,
    Mage,
    Barbarian,
}

/// What using an item did: the item was absent, healed the player, or was
/// consumed with no effect.
#[derive(Clone, Copy, PartialEq, Eq, Structural, Debug)]
pub enum ItemUse {
    NotHeld,
    Healed,
    NoEffect,
}

/// A gain clamped from above: the new value of a counter at `cur` after
/// adding `amount`, never exceeding `cap`.
pub open spec fn clamped_gain(cur: int, amount: int, cap: int) -> int {
    if cur + amount > cap {
        cap
    } else {
        cur + amount
    }
}

/// The index of the first entry of `names` equal to `target`, or -1 when
/// none is.
pub open spec fn first_match(names: Seq<Seq<char>>, target: Seq<char>) -> int
    decreases names.len(),
{
    if names.len() == 0 {
        -1
    } else if names[0] == target {
        0
    } else {
        let rest = first_match(names.drop_first(), target);
        if rest < 0 {
            -1
        } else {
            rest + 1
        }
    }
}

proof fn lemma_first_match_at(names: Seq<Seq<char>>, target: Seq<char>, k: int)
    requires
        0 <= k < names.len(),
        names[k] == target,
        forall|j: int| 0 <= j < k ==> names[j] != target,
    ensures
        first_match(names, target) == k,
    decreases k,
{
    if k == 0 {
    } else {
        assert(names[0] != target);
        assert(names.drop_first()[k - 1] == target);
        assert(forall|j: int| 0 <= j < k - 1 ==> names.drop_first()[j] != target);
        lemma_first_match_at(names.drop_first(), target, k - 1);
    }
}

proof fn lemma_first_match_absent(names: Seq<Seq<char>>, target: Seq<char>)
    requires
        forall|j: int| 0 <= j < names.len() ==> names[j] != target,
    ensures
        first_match(names, target) == -1,
    decreases names.len(),
{
    if names.len() == 0 {
    } else {
        assert(names[0] != target);
        assert(forall|j: int| 0 <= j < names.drop_first().len() ==> names.drop_first()[j]
            != target);
        lemma_first_match_absent(names.drop_first(), target);
    }
}

/// The item names with a healing effect: using one heals the player by 25.
pub open spec fn is_herb_name(name: Seq<char>) -> bool {
    name == "Herb"@ || name == "herb"@
}

impl Weapon {
    /// The default weapon of a fresh character: fists dealing 1-5 damage.
    pub fn fists() -> (w: Weapon)
        ensures
            w.name@ == "Fist"@,
            w.description@ == "A rusty fist."@,
            w.min_damage == 1,
            w.max_damage == 5,
    {
        Weapon {
            name: String::from_str("Fist"),
            description: String::from_str("A rusty fist."),
            min_damage: 1,
            max_damage: 5,
        }
    }
}

impl Player {
    /// A fresh character with the given name and the default stats:
    /// 100/100 health, 5/5 mana, fists, level 0, no gold, no experience,
    /// empty inventory and spell list.
    pub fn new(name: String) -> (p: Player)
        ensures
            p.name == name,
            p.hp == 100,
            p.max_hp == 100,
            p.mp == 5,
            p.max_mp == 5,
            p.equipped_weapon.name@ == "Fist"@,
            p.equipped_weapon.min_damage == 1,
            p.equipped_weapon.max_damage == 5,
            p.level == 0,
            p.strength == 0,
            p.defense == 0,
            p.exp == 0,
            p.gold == 0,
            p.inventory@.len() == 0,
            p.spell_inventory@.len() == 0,
    {
        Player {
            name,
            hp: 100,
            max_hp: 100,
            mp: 5,
            max_mp: 5,
            equipped_weapon: Weapon::fists(),
            level: 0,
            strength: 0,
            defense: 0,
            exp: 0,
            gold: 0,
            inventory: Vec::new(),
            spell_inventory: Vec::new(),
        }
    }

    /// Reduces current health by `damage`; health may go below zero, defeat
    /// is detected by callers.  A negative amount raises health.
    pub fn take_damage(&mut self, damage: i32)
        requires
            i32::MIN <= old(self).hp - damage <= i32::MAX,
        ensures
            final(self).hp == old(self).hp - damage,
            *final(self) == (Player { hp: final(self).hp, ..*old(self) }),
    {
        self.hp = self.hp - damage;
    }

    /// Raises current health by `health`, clamped to the maximum; reports
    /// whether the clamp occurred.  Health never ends above the maximum.
    pub fn gain_health(&mut self, health: i32) -> (capped: bool)
        requires
            i32::MIN <= old(self).hp + health <= i32::MAX,
        ensures
            final(self).hp == clamped_gain(old(self).hp as int, health as int, old(self).max_hp as int),
            final(self).hp <= old(self).max_hp,
            capped == (old(self).hp + health > old(self).max_hp),
            *final(self) == (Player { hp: final(self).hp, ..*old(self) }),
    {
        if self.hp + health > self.max_hp {
            self.hp = self.max_hp;
            true
        } else {
            self.hp = self.hp + health;
            false
        }
    }

    /// Reduces current mana by `mp`; mana may go below zero, sufficiency is
    /// checked by callers before spending.
    pub fn remove_mp(&mut self, mp: i32)
        requires
            i32::MIN <= old(self).mp - mp <= i32::MAX,
        ensures
            final(self).mp == old(self).mp - mp,
            *final(self) == (Player { mp: final(self).mp, ..*old(self) }),
    {
        self.mp = self.mp - mp;
    }

    /// Raises current mana by `mp`, clamped to the maximum; reports whether
    /// the clamp occurred.  Mana never ends above the maximum.
    pub fn gain_mp(&mut self, mp: i32) -> (capped: bool)
        requires
            i32::MIN <= old(self).mp + mp <= i32::MAX,
        ensures
            final(self).mp == clamped_gain(old(self).mp as int, mp as int, old(self).max_mp as int),
            final(self).mp <= old(self).max_mp,
            capped == (old(self).mp + mp > old(self).max_mp),
            *final(self) == (Player { mp: final(self).mp, ..*old(self) }),
    {
        if self.mp + mp > self.max_mp {
            self.mp = self.max_mp;
            true
        } else {
            self.mp = self.mp + mp;
            false
        }
    }

    /// Adds `exp` to experience; a negative amount is a spend whose
    /// sufficiency the caller has checked.
    pub fn gain_exp(&mut self, exp: i32)
        requires
            i32::MIN <= old(self).exp + exp <= i32::MAX,
        ensures
            final(self).exp == old(self).exp + exp,
            *final(self) == (Player { exp: final(self).exp, ..*old(self) }),
    {
        self.exp = self.exp + exp;
    }

    /// Adds `gold` to the purse; a negative amount is a spend whose
    /// sufficiency the caller has checked.
    pub fn gain_gold(&mut self, gold: i32)
        requires
            i32::MIN <= old(self).gold + gold <= i32::MAX,
        ensures
            final(self).gold == old(self).gold + gold,
            *final(self) == (Player { gold: final(self).gold, ..*old(self) }),
    {
        self.gold = self.gold + gold;
    }

    /// Appends one item of the given name to the inventory; duplicates are
    /// allowed and acquisition order is kept.
    pub fn add_item(&mut self, item: &str)
        ensures
            final(self).inventory.deep_view() == old(self).inventory.deep_view().push(item@),
            *final(self) == (Player { inventory: final(self).inventory, ..*old(self) }),
    {
        let ghost names = self.inventory.deep_view();
        self.inventory.push(String::from_str(item));
        proof {
            assert(final(self).inventory.deep_view() =~= names.push(item@));
        }
    }

    /// Removes the first inventory entry matching `item` exactly and applies
    /// its effect: a herb heals 25, any other held name is consumed with no
    /// effect; an absent name leaves the inventory unchanged.
    pub fn use_item(&mut self, item: &str) -> (used: ItemUse)
        requires
            first_match(old(self).inventory.deep_view(), item@) >= 0 && is_herb_name(item@)
                ==> old(self).hp + 25 <= i32::MAX,
        ensures
            ({
                let names = old(self).inventory.deep_view();
                let fm = first_match(names, item@);
                match used {
                    ItemUse::NotHeld => fm < 0 && *final(self) == *old(self),
                    ItemUse::Healed => fm >= 0 && is_herb_name(item@)
                        && final(self).inventory.deep_view() == names.remove(fm)
                        && final(self).hp == clamped_gain(
                        old(self).hp as int,
                        25,
                        old(self).max_hp as int,
                    ) && final(self).hp <= old(self).max_hp && *final(self) == (Player {
                        hp: final(self).hp,
                        inventory: final(self).inventory,
                        ..*old(self)
                    }),
                    ItemUse::NoEffect => fm >= 0 && !is_herb_name(item@)
                        && final(self).inventory.deep_view() == names.remove(fm) && *final(self)
                        == (Player { inventory: final(self).inventory, ..*old(self) }),
                }
            }),
    {
        let ghost names = self.inventory.deep_view();
        let n = self.inventory.len();
        let mut k: usize = 0;
        let mut found: bool = false;
        while k < n && !found
            invariant
                *self == *old(self),
                n == self.inventory@.len(),
                k <= n,
                names == self.inventory.deep_view(),
                forall|j: int| 0 <= j < k ==> names[j] != item@,
                found ==> k < n && names[k as int] == item@,
            decreases n - k + (if found { 0int } else { 1int }),
        {
            if str_eq(self.inventory[k].as_str(), item) {
                found = true;
            } else {
                k = k + 1;
            }
        }
        if !found {
            proof {
                lemma_first_match_absent(names, item@);
            }
            return ItemUse::NotHeld;
        }
        proof {
            lemma_first_match_at(names, item@, k as int);
        }
        self.inventory.remove(k);
        proof {
            assert(self.inventory.deep_view() =~= names.remove(k as int));
        }
        if str_eq(item, "Herb") || str_eq(item, "herb") {
            self.gain_health(25);
            ItemUse::Healed
        } else {
            ItemUse::NoEffect
        }
    }

    /// One warrior level: +1 level, +1 strength, +2 defense, +10 max health,
    /// +1 max mana.  Current health and mana are not raised.
    pub fn level_warrior(&mut self)
        requires
            old(self).level + 1 <= i32::MAX,
            old(self).strength + 1 <= i32::MAX,
            old(self).defense + 2 <= i32::MAX,
            old(self).max_hp + 10 <= i32::MAX,
            old(self).max_mp + 1 <= i32::MAX,
        ensures
            final(self).level == old(self).level + 1,
            final(self).strength == old(self).strength + 1,
            final(self).defense == old(self).defense + 2,
            final(self).max_hp == old(self).max_hp + 10,
            final(self).max_mp == old(self).max_mp + 1,
            *final(self) == (Player {
                level: final(self).level,
                strength: final(self).strength,
                defense: final(self).defense,
                max_hp: final(self).max_hp,
                max_mp: final(self).max_mp,
                ..*old(self)
            }),
    {
        self.level = self.level + 1;
        self.strength = self.strength + 1;
        self.defense = self.defense + 2;
        self.max_hp = self.max_hp + 10;
        self.max_mp = self.max_mp + 1;
    }

    /// One mage level: +1 level, +1 defense, +5 max health, +3 max mana;
    /// strength unchanged.  Current health and mana are not raised.
    pub fn level_mage(&mut self)
        requires
            old(self).level + 1 <= i32::MAX,
            old(self).defense + 1 <= i32::MAX,
            old(self).max_hp + 5 <= i32::MAX,
            old(self).max_mp + 3 <= i32::MAX,
        ensures
            final(self).level == old(self).level + 1,
            final(self).defense == old(self).defense + 1,
            final(self).max_hp == old(self).max_hp + 5,
            final(self).max_mp == old(self).max_mp + 3,
            final(self).strength == old(self).strength,
            *final(self) == (Player {
                level: final(self).level,
                defense: final(self).defense,
                max_hp: final(self).max_hp,
                max_mp: final(self).max_mp,
                ..*old(self)
            }),
    {
        self.level = self.level + 1;
        self.defense = self.defense + 1;
        self.max_hp = self.max_hp + 5;
        self.max_mp = self.max_mp + 3;
    }

    /// One barbarian level: +1 level, +2 strength, +1 defense, +12 max
    /// health; max mana unchanged.  Current health and mana are not raised.
    pub fn level_barbarian(&mut self)
        requires
            old(self).level + 1 <= i32::MAX,
            old(self).strength + 2 <= i32::MAX,
            old(self).defense + 1 <= i32::MAX,
            old(self).max_hp + 12 <= i32::MAX,
        ensures
            final(self).level == old(self).level + 1,
            final(self).strength == old(self).strength + 2,
            final(self).defense == old(self).defense + 1,
            final(self).max_hp == old(self).max_hp + 12,
            final(self).max_mp == old(self).max_mp,
            *final(self) == (Player {
                level: final(self).level,
                strength: final(self).strength,
                defense: final(self).defense,
                max_hp: final(self).max_hp,
                ..*old(self)
            }),
    {
        self.level = self.level + 1;
        self.strength = self.strength + 2;
        self.defense = self.defense + 1;
        self.max_hp = self.max_hp + 12;
    }

    /// Applies the fixed stat-delta table of one archetype atomically.
    pub fn apply_level_up(&mut self, archetype: Archetype)
        requires
            old(self).level + 1 <= i32::MAX,
            old(self).strength + 2 <= i32::MAX,
            old(self).defense + 2 <= i32::MAX,
            old(self).max_hp + 12 <= i32::MAX,
            old(self).max_mp + 3 <= i32::MAX,
        ensures
            final(self).level == old(self).level + 1,
            final(self).strength == old(self).strength + strength_delta(archetype),
            final(self).defense == old(self).defense + defense_delta(archetype),
            final(self).max_hp == old(self).max_hp + max_hp_delta(archetype),
            final(self).max_mp == old(self).max_mp + max_mp_delta(archetype),
            *final(self) == (Player {
                level: final(self).level,
                strength: final(self).strength,
                defense: final(self).defense,
                max_hp: final(self).max_hp,
                max_mp: final(self).max_mp,
                ..*old(self)
            }),
    {
        match archetype {
            Archetype::Warrior => self.level_warrior(),
            Archetype::Mage => self.level_mage(),
            Archetype::Barbarian => self.level_barbarian(),
        }
    }
}

/// Strength gained per level by each archetype.
pub open spec fn strength_delta(archetype: Archetype) -> int {
    match archetype {
        Archetype::Warrior => 1,
        Archetype::Mage => 0,
        Archetype::Barbarian => 2,
    }
}

/// Defense gained per level by each archetype.
pub open spec fn defense_delta(archetype: Archetype) -> int {
    match archetype {
        Archetype::Warrior => 2,
        Archetype::Mage => 1,
        Archetype::Barbarian => 1,
    }
}

/// Maximum health gained per level by each archetype.
pub open spec fn max_hp_delta(archetype: Archetype) -> int {
    match archetype {
        Archetype::Warrior => 10,
        Archetype::Mage => 5,
        Archetype::Barbarian => 12,
    }
}

/// Maximum mana gained per level by each archetype.
pub open spec fn max_mp_delta(archetype: Archetype) -> int {
    match archetype {
        Archetype::Warrior => 1,
        Archetype::Mage => 3,
        Archetype::Barbarian => 0,
    }
}

} // verus!

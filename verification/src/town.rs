use vstd::prelude::*;

use crate::player::{
    defense_delta, max_hp_delta, max_mp_delta, strength_delta, Archetype, Player, Spell,
};
use crate::text::str_eq;

verus! {

/// A menu selection: either one of the menu's wares or the token that
/// returns to the main menu.  An unrecognized token parses to neither.
#[derive(Clone, Copy, PartialEq, Eq, Debug)]
pub enum MenuPick<T> {
    Choice(T),
    Back,
}

/// Every menu leaves on the same four tokens.
pub open spec fn is_back_token(token: Seq<char>) -> bool {
    token == "quit"@ || token == "Quit"@ || token == "back"@ || token == "Back"@
}

/// Whether a token returns to the main menu.
pub fn is_back(token: &str) -> (r: bool)
    ensures
        r == is_back_token(token@),
{
    str_eq(token, "quit") || str_eq(token, "Quit") || str_eq(token, "back") || str_eq(
        token,
        "Back",
    )
}

/// The consumables on the shop's fixed catalog.
#[derive(Clone, Copy, PartialEq, Eq, Structural, Debug)]
pub enum ShopWare {
    Herb,
    ManaStone,
}

/// The inventory name a shop ware is sold under.
pub open spec fn shop_ware_name(ware: ShopWare) -> Seq<char> {
    match ware {
        ShopWare::Herb => "Herb"@,
        ShopWare::ManaStone => "Mana Stone"@,
    }
}

/// The gold price of a shop ware.
pub open spec fn shop_price(ware: ShopWare) -> int {
    match ware {
        ShopWare::Herb => 10,
        ShopWare::ManaStone => 10,
    }
}

/// The shop ware or back command a token names, if any.
pub open spec fn shop_pick_for(token: Seq<char>) -> Option<MenuPick<ShopWare>> {
    if token == "Herb"@ || token == "herb"@ {
        Some(MenuPick::Choice(ShopWare::Herb))
    } else if token == "Mana Stone"@ || token == "mana stone"@ {
        Some(MenuPick::Choice(ShopWare::ManaStone))
    } else if is_back_token(token) {
        Some(MenuPick::Back)
    } else {
        None
    }
}

/// Maps a shop-menu token to its pick.
pub fn parse_shop_pick(token: &str) -> (r: Option<MenuPick<ShopWare>>)
    ensures
        r == shop_pick_for(token@),
{
    if str_eq(token, "Herb") || str_eq(token, "herb") {
        Some(MenuPick::Choice(ShopWare::Herb))
    } else if str_eq(token, "Mana Stone") || str_eq(token, "mana stone") {
        Some(MenuPick::Choice(ShopWare::ManaStone))
    } else if is_back(token) {
        Some(MenuPick::Back)
    } else {
        None
    }
}

/// Buys one consumable: rejected outright when gold is short of the price,
/// with nothing changed; otherwise the price is debited and the item is
/// appended to the inventory.
pub fn shop_buy(player: &mut Player, ware: ShopWare) -> (bought: bool)
    ensures
        bought == (old(player).gold >= shop_price(ware)),
        bought ==> final(player).gold == old(player).gold - shop_price(ware) && final(player).inventory.deep_view() == old(player).inventory.deep_view().push(shop_ware_name(ware))
            && *final(player) == (Player {
            gold: final(player).gold,
            inventory: final(player).inventory,
            ..*old(player)
        }),
        !bought ==> *final(player) == *old(player),
{
    if player.gold < 10 {
        false
    } else {
        player.gain_gold(-10);
        match ware {
            ShopWare::Herb => player.add_item("Herb"),
            ShopWare::ManaStone => player.add_item("Mana Stone"),
        }
        true
    }
}

/// The weapons on the smithy's fixed catalog.
#[derive(Clone, Copy, PartialEq, Eq, Structural, Debug)]
pub enum Forgework {
    Sword,
    Hammer,
}

/// The gold price of a smithy weapon.
pub open spec fn smithy_price(work: Forgework) -> int {
    match work {
        Forgework::Sword => 25,
        Forgework::Hammer => 25,
    }
}

/// The name a smithy weapon is forged under.
pub open spec fn smithy_weapon_name(work: Forgework) -> Seq<char> {
    match work {
        Forgework::Sword => "Sword"@,
        Forgework::Hammer => "Hammer"@,
    }
}

/// The flavor line of a smithy weapon.
pub open spec fn smithy_weapon_description(work: Forgework) -> Seq<char> {
    match work {
        Forgework::Sword => "A decent sword."@,
        Forgework::Hammer => "An unwieldy hammer."@,
    }
}

/// The minimum damage of a smithy weapon.
pub open spec fn smithy_weapon_min(work: Forgework) -> int {
    match work {
        Forgework::Sword => 5,
        Forgework::Hammer => 3,
    }
}

/// The maximum damage of a smithy weapon.
pub open spec fn smithy_weapon_max(work: Forgework) -> int {
    match work {
        Forgework::Sword => 10,
        Forgework::Hammer => 13,
    }
}

/// The smithy weapon or back command a token names, if any.
pub open spec fn smithy_pick_for(token: Seq<char>) -> Option<MenuPick<Forgework>> {
    if token == "Sword"@ || token == "sword"@ {
        Some(MenuPick::Choice(Forgework::Sword))
    } else if token == "Hammer"@ || token == "hammer"@ {
        Some(MenuPick::Choice(Forgework::Hammer))
    } else if is_back_token(token) {
        Some(MenuPick::Back)
    } else {
        None
    }
}

/// Maps a smithy-menu token to its pick.
pub fn parse_smithy_pick(token: &str) -> (r: Option<MenuPick<Forgework>>)
    ensures
        r == smithy_pick_for(token@),
{
    if str_eq(token, "Sword") || str_eq(token, "sword") {
        Some(MenuPick::Choice(Forgework::Sword))
    } else if str_eq(token, "Hammer") || str_eq(token, "hammer") {
        Some(MenuPick::Choice(Forgework::Hammer))
    } else if is_back(token) {
        Some(MenuPick::Back)
    } else {
        None
    }
}

/// Buys a weapon: rejected outright when gold is short of the price, with
/// nothing changed; otherwise the price is debited and the new weapon
/// replaces the equipped one, which is discarded.
pub fn smithy_buy(player: &mut Player, work: Forgework) -> (bought: bool)
    ensures
        bought == (old(player).gold >= smithy_price(work)),
        bought ==> final(player).gold == old(player).gold - smithy_price(work) && final(player).equipped_weapon.name@ == smithy_weapon_name(work) && final(player).equipped_weapon.description@ == smithy_weapon_description(work) && final(player).equipped_weapon.min_damage == smithy_weapon_min(work) && final(player).equipped_weapon.max_damage == smithy_weapon_max(work) && *final(player) == (Player {
            gold: final(player).gold,
            equipped_weapon: final(player).equipped_weapon,
            ..*old(player)
        }),
        !bought ==> *final(player) == *old(player),
{
    if player.gold < 25 {
        false
    } else {
        player.gain_gold(-25);
        match work {
            Forgework::Sword => {
                player.equipped_weapon = crate::player::Weapon {
                    name: String::from_str("Sword"),
                    description: String::from_str("A decent sword."),
                    min_damage: 5,
                    max_damage: 10,
                };
            },
            Forgework::Hammer => {
                player.equipped_weapon = crate::player::Weapon {
                    name: String::from_str("Hammer"),
                    description: String::from_str("An unwieldy hammer."),
                    min_damage: 3,
                    max_damage: 13,
                };
            },
        }
        true
    }
}

/// The spells on the spell shop's fixed catalog.
#[derive(Clone, Copy, PartialEq, Eq, Structural, Debug)]
pub enum SpellWare {
    Firebolt,
    IceShard,
    LightningBolt,
}

/// The gold price of a spell.
pub open spec fn spell_ware_price(ware: SpellWare) -> int {
    match ware {
        SpellWare::Firebolt => 25,
        SpellWare::IceShard => 35,
        SpellWare::LightningBolt => 50,
    }
}

/// The name a spell is learned under, and cast by.
pub open spec fn spell_ware_name(ware: SpellWare) -> Seq<char> {
    match ware {
        SpellWare::Firebolt => "Firebolt"@,
        SpellWare::IceShard => "Ice Shard"@,
        SpellWare::LightningBolt => "Lightning Bolt"@,
    }
}

/// The flavor line of a spell.
pub open spec fn spell_ware_description(ware: SpellWare) -> Seq<char> {
    match ware {
        SpellWare::Firebolt => "A bolt of fire."@,
        SpellWare::IceShard => "A shard of ice."@,
        SpellWare::LightningBolt => "A bolt of lightning."@,
    }
}

/// The mana cost of casting a spell.
pub open spec fn spell_ware_cost(ware: SpellWare) -> int {
    match ware {
        SpellWare::Firebolt => 2,
        SpellWare::IceShard => 3,
        SpellWare::LightningBolt => 5,
    }
}

/// The fixed damage a spell deals.
pub open spec fn spell_ware_damage(ware: SpellWare) -> int {
    match ware {
        SpellWare::Firebolt => 10,
        SpellWare::IceShard => 13,
        SpellWare::LightningBolt => 20,
    }
}

/// The spell or back command a token names, if any.
pub open spec fn spell_pick_for(token: Seq<char>) -> Option<MenuPick<SpellWare>> {
    if token == "Firebolt"@ || token == "firebolt"@ {
        Some(MenuPick::Choice(SpellWare::Firebolt))
    } else if token == "Ice Shard"@ || token == "ice shard"@ {
        Some(MenuPick::Choice(SpellWare::IceShard))
    } else if token == "Lightning Bolt"@ || token == "lightning bolt"@ {
        Some(MenuPick::Choice(SpellWare::LightningBolt))
    } else if is_back_token(token) {
        Some(MenuPick::Back)
    } else {
        None
    }
}

/// Maps a spell-shop token to its pick.
pub fn parse_spell_pick(token: &str) -> (r: Option<MenuPick<SpellWare>>)
    ensures
        r == spell_pick_for(token@),
{
    if str_eq(token, "Firebolt") || str_eq(token, "firebolt") {
        Some(MenuPick::Choice(SpellWare::Firebolt))
    } else if str_eq(token, "Ice Shard") || str_eq(token, "ice shard") {
        Some(MenuPick::Choice(SpellWare::IceShard))
    } else if str_eq(token, "Lightning Bolt") || str_eq(token, "lightning bolt") {
        Some(MenuPick::Choice(SpellWare::LightningBolt))
    } else if is_back(token) {
        Some(MenuPick::Back)
    } else {
        None
    }
}

/// Buys a spell: rejected outright when gold is short of the price, with
/// nothing changed; otherwise the price is debited and the spell, with its
/// catalog stats, is appended to the spell list.
pub fn spell_shop_buy(player: &mut Player, ware: SpellWare) -> (bought: bool)
    ensures
        bought == (old(player).gold >= spell_ware_price(ware)),
        bought ==> ({
            let spells = final(player).spell_inventory@;
            &&& final(player).gold == old(player).gold - spell_ware_price(ware)
            &&& spells.len() == old(player).spell_inventory@.len() + 1
            &&& forall|j: int|
                0 <= j < old(player).spell_inventory@.len() ==> spells[j] == old(player).spell_inventory@[j]
            &&& spells.last().name@ == spell_ware_name(ware)
            &&& spells.last().description@ == spell_ware_description(ware)
            &&& spells.last().mp_cost == spell_ware_cost(ware)
            &&& spells.last().damage == spell_ware_damage(ware)
            &&& *final(player) == (Player {
                gold: final(player).gold,
                spell_inventory: final(player).spell_inventory,
                ..*old(player)
            })
        }),
        !bought ==> *final(player) == *old(player),
{
    let price: i32 = match ware {
        SpellWare::Firebolt => 25,
        SpellWare::IceShard => 35,
        SpellWare::LightningBolt => 50,
    };
    if player.gold < price {
        false
    } else {
        player.gain_gold(-price);
        let spell = match ware {
            SpellWare::Firebolt => Spell {
                name: String::from_str("Firebolt"),
                description: String::from_str("A bolt of fire."),
                mp_cost: 2,
                damage: 10,
            },
            SpellWare::IceShard => Spell {
                name: String::from_str("Ice Shard"),
                description: String::from_str("A shard of ice."),
                mp_cost: 3,
                damage: 13,
            },
            SpellWare::LightningBolt => Spell {
                name: String::from_str("Lightning Bolt"),
                description: String::from_str("A bolt of lightning."),
                mp_cost: 5,
                damage: 20,
            },
        };
        player.spell_inventory.push(spell);
        true
    }
}

/// What leveling up at the shrine costs in experience, at the given level.
pub open spec fn level_cost(level: int) -> int {
    (level + 1) * 50
}

/// The archetype or back command a shrine token names, if any.
pub open spec fn shrine_pick_for(token: Seq<char>) -> Option<MenuPick<Archetype>> {
    if token == "Level Warrior"@ || token == "level warrior"@ || token == "warrior"@ || token
        == "Warrior"@ {
        Some(MenuPick::Choice(Archetype::Warrior))
    } else if token == "Level Mage"@ || token == "level mage"@ || token == "mage"@ || token
        == "Mage"@ {
        Some(MenuPick::Choice(Archetype::Mage))
    } else if token == "Level Barbarian"@ || token == "level barbarian"@ || token == "barbarian"@
        || token == "Barbarian"@ {
        Some(MenuPick::Choice(Archetype::Barbarian))
    } else if is_back_token(token) {
        Some(MenuPick::Back)
    } else {
        None
    }
}

/// Maps a shrine-menu token to its pick.
pub fn parse_shrine_pick(token: &str) -> (r: Option<MenuPick<Archetype>>)
    ensures
        r == shrine_pick_for(token@),
{
    if str_eq(token, "Level Warrior") || str_eq(token, "level warrior") || str_eq(
        token,
        "warrior",
    ) || str_eq(token, "Warrior") {
        Some(MenuPick::Choice(Archetype::Warrior))
    } else if str_eq(token, "Level Mage") || str_eq(token, "level mage") || str_eq(token, "mage")
        || str_eq(token, "Mage") {
        Some(MenuPick::Choice(Archetype::Mage))
    } else if str_eq(token, "Level Barbarian") || str_eq(token, "level barbarian") || str_eq(
        token,
        "barbarian",
    ) || str_eq(token, "Barbarian") {
        Some(MenuPick::Choice(Archetype::Barbarian))
    } else if is_back(token) {
        Some(MenuPick::Back)
    } else {
        None
    }
}

/// Levels up at the shrine: rejected outright when experience is short of
/// the cost, with nothing changed; otherwise the cost is debited and the
/// archetype's stat-delta table is applied atomically.
pub fn shrine_level_up(player: &mut Player, archetype: Archetype) -> (leveled: bool)
    requires
        0 <= old(player).level,
        (old(player).level + 1) * 50 <= i32::MAX,
        old(player).exp >= level_cost(old(player).level as int) ==> old(player).strength + 2
            <= i32::MAX && old(player).defense + 2 <= i32::MAX && old(player).max_hp + 12
            <= i32::MAX && old(player).max_mp + 3 <= i32::MAX,
    ensures
        leveled == (old(player).exp >= level_cost(old(player).level as int)),
        leveled ==> final(player).exp == old(player).exp - level_cost(old(player).level as int)
            && final(player).level == old(player).level + 1 && final(player).strength == old(player).strength + strength_delta(archetype) && final(player).defense == old(player).defense
            + defense_delta(archetype) && final(player).max_hp == old(player).max_hp
            + max_hp_delta(archetype) && final(player).max_mp == old(player).max_mp + max_mp_delta(
            archetype,
        ) && *final(player) == (Player {
            exp: final(player).exp,
            level: final(player).level,
            strength: final(player).strength,
            defense: final(player).defense,
            max_hp: final(player).max_hp,
            max_mp: final(player).max_mp,
            ..*old(player)
        }),
        !leveled ==> *final(player) == *old(player),
{
    let cost = (player.level + 1) * 50;
    if player.exp < cost {
        false
    } else {
        player.gain_exp(-cost);
        player.apply_level_up(archetype);
        true
    }
}

} // verus!

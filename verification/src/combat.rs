use vstd::prelude::*;

use crate::player::{clamped_gain, first_match, is_herb_name, Player, Spell};
use crate::rng::roll_between;
use crate::text::str_eq;

verus! {

/// The three hunting grounds; each tier fixes the random stat ranges of the
/// enemy spawned there.
#[derive(Clone, Copy, PartialEq, Eq, Structural, Debug)]
pub enum Tier {
    Plains,
    Forest,
    Mountains,
}

/// Lowest health an enemy of the tier can spawn with.
pub open spec fn tier_hp_min(tier: Tier) -> int {
    match tier {
        Tier::Plains => 5,
        Tier::Forest => 10,
        Tier::Mountains => 35,
    }
}

/// Highest health an enemy of the tier can spawn with.
pub open spec fn tier_hp_max(tier: Tier) -> int {
    match tier {
        Tier::Plains => 9,
        Tier::Forest => 19,
        Tier::Mountains => 49,
    }
}

/// Lowest attack an enemy of the tier can spawn with.
pub open spec fn tier_attack_min(tier: Tier) -> int {
    match tier {
        Tier::Plains => 1,
        Tier::Forest => 5,
        Tier::Mountains => 10,
    }
}

/// Highest attack an enemy of the tier can spawn with.
pub open spec fn tier_attack_max(tier: Tier) -> int {
    match tier {
        Tier::Plains => 5,
        Tier::Forest => 10,
        Tier::Mountains => 15,
    }
}

/// The name of the creature that haunts the tier.
pub open spec fn tier_enemy_name(tier: Tier) -> Seq<char> {
    match tier {
        Tier::Plains => "Goblin"@,
        Tier::Forest => "Bear"@,
        Tier::Mountains => "Troll"@,
    }
}

/// Reward granted for defeating an enemy whose rolled health was `hp`:
/// `max(hp, 2) / 2`, integer division.  Experience and gold use the same
/// rule.
pub open spec fn reward_for(hp: int) -> int {
    (if hp < 2 {
        2
    } else {
        hp
    }) / 2
}

/// One spawned enemy, alive for a single encounter.  `spawn_hp` records the
/// health it was rolled with, which pins both rewards for the whole fight.
pub struct Enemy {
    pub name: String,
    pub hp: i32,
    pub attack: i32,
    pub exp_to_give: i32,
    pub gold_to_give: i32,
    pub spawn_hp: Ghost<int>,
}

impl Enemy {
    /// Both rewards equal the reward rule applied to the health the enemy
    /// was created with, however far combat has lowered `hp` since.
    pub open spec fn wf(self) -> bool {
        &&& self.exp_to_give == reward_for(self.spawn_hp@)
        &&& self.gold_to_give == reward_for(self.spawn_hp@)
    }

    /// A fresh enemy; rewards are derived from `hp` at creation and never
    /// recomputed.
    pub fn new(name: String, hp: i32, attack: i32) -> (e: Enemy)
        ensures
            e.name == name,
            e.hp == hp,
            e.attack == attack,
            e.spawn_hp@ == hp,
            e.exp_to_give == reward_for(hp as int),
            e.gold_to_give == reward_for(hp as int),
            e.wf(),
    {
        let base = if hp < 2 {
            2
        } else {
            hp
        };
        let reward = base / 2;
        Enemy {
            name,
            hp,
            attack,
            exp_to_give: reward,
            gold_to_give: reward,
            spawn_hp: Ghost(hp as int),
        }
    }
}

/// Rolls an enemy for the tier: health and attack uniform in the tier's
/// ranges, rewards fixed from the rolled health.
pub fn spawn_enemy(tier: Tier) -> (e: Enemy)
    ensures
        tier_hp_min(tier) <= e.hp <= tier_hp_max(tier),
        tier_attack_min(tier) <= e.attack <= tier_attack_max(tier),
        e.name@ == tier_enemy_name(tier),
        e.spawn_hp@ == e.hp,
        e.exp_to_give == reward_for(e.hp as int),
        e.gold_to_give == reward_for(e.hp as int),
        e.wf(),
{
    match tier {
        Tier::Plains => {
            let hp = roll_between(5, 9);
            let attack = roll_between(1, 5);
            Enemy::new(String::from_str("Goblin"), hp, attack)
        },
        Tier::Forest => {
            let hp = roll_between(10, 19);
            let attack = roll_between(5, 10);
            Enemy::new(String::from_str("Bear"), hp, attack)
        },
        Tier::Mountains => {
            let hp = roll_between(35, 49);
            let attack = roll_between(10, 15);
            Enemy::new(String::from_str("Troll"), hp, attack)
        },
    }
}

/// A lower floor of one: ranges whose upper end this bounds never collapse
/// below a single point.
pub open spec fn max1(x: int) -> int {
    if x < 1 {
        1
    } else {
        x
    }
}

/// Smallest damage an attack can roll: the weapon's lower bound.
pub open spec fn attack_lo(p: Player) -> int {
    p.equipped_weapon.min_damage as int
}

/// Largest damage an attack can roll: the weapon's upper bound floored at
/// one, plus strength.
pub open spec fn attack_hi(p: Player) -> int {
    max1(p.equipped_weapon.max_damage as int) + p.strength
}

/// Largest counter-attack the enemy can land: its attack floored at one,
/// minus the player's defense; when defense swallows the whole range, the
/// counter is normalized to a flat single point of damage.
pub open spec fn counter_cap(e: Enemy, p: Player) -> int {
    max1(max1(e.attack as int) - p.defense)
}

/// Machine bounds for an attack turn: the damage range is non-empty (an
/// empty range cannot be sampled) and the enemy's health update fits the
/// type.
pub open spec fn attack_fits(p: Player, e: Enemy) -> bool {
    &&& attack_lo(p) <= attack_hi(p)
    &&& i32::MIN <= attack_hi(p) <= i32::MAX
    &&& i32::MIN <= e.hp - attack_hi(p)
    &&& e.hp - attack_lo(p) <= i32::MAX
}

/// Machine bounds for granting the enemy's rewards.
pub open spec fn rewards_fit(p: Player, e: Enemy) -> bool {
    &&& i32::MIN <= p.exp + e.exp_to_give <= i32::MAX
    &&& i32::MIN <= p.gold + e.gold_to_give <= i32::MAX
}

/// Machine bounds for a counter-attack against a player at `hp` health.
pub open spec fn counter_fits_at(hp: int, p: Player, e: Enemy) -> bool {
    &&& i32::MIN <= max1(e.attack as int) - p.defense <= i32::MAX
    &&& i32::MIN <= hp - counter_cap(e, p)
}

/// Machine bounds for a counter-attack against the player as it stands.
pub open spec fn counter_fits(p: Player, e: Enemy) -> bool {
    counter_fits_at(p.hp as int, p, e)
}

/// The player's health after using the named item, before any
/// counter-attack: a held herb heals 25, clamped to the maximum; anything
/// else leaves health as it is.
pub open spec fn hp_after_item(p: Player, name: Seq<char>) -> int {
    if first_match(p.inventory.deep_view(), name) >= 0 && is_herb_name(name) {
        clamped_gain(p.hp as int, 25, p.max_hp as int)
    } else {
        p.hp as int
    }
}

/// The index of the first known spell named `name`, or -1 when none is.
pub open spec fn first_spell(spells: Seq<Spell>, name: Seq<char>) -> int
    decreases spells.len(),
{
    if spells.len() == 0 {
        -1
    } else if spells[0].name@ == name {
        0
    } else {
        let rest = first_spell(spells.drop_first(), name);
        if rest < 0 {
            -1
        } else {
            rest + 1
        }
    }
}

proof fn lemma_first_spell_at(spells: Seq<Spell>, name: Seq<char>, k: int)
    requires
        0 <= k < spells.len(),
        spells[k].name@ == name,
        forall|j: int| 0 <= j < k ==> spells[j].name@ != name,
    ensures
        first_spell(spells, name) == k,
    decreases k,
{
    if k == 0 {
    } else {
        assert(spells[0].name@ != name);
        assert(spells.drop_first()[k - 1] == spells[k]);
        assert(forall|j: int| 0 <= j < k - 1 ==> spells.drop_first()[j].name@ != name);
        lemma_first_spell_at(spells.drop_first(), name, k - 1);
    }
}

proof fn lemma_first_spell_absent(spells: Seq<Spell>, name: Seq<char>)
    requires
        forall|j: int| 0 <= j < spells.len() ==> spells[j].name@ != name,
    ensures
        first_spell(spells, name) == -1,
    decreases spells.len(),
{
    if spells.len() == 0 {
    } else {
        assert(spells[0].name@ != name);
        assert(forall|j: int| 0 <= j < spells.drop_first().len() ==> spells.drop_first()[j].name@
            != name);
        lemma_first_spell_absent(spells.drop_first(), name);
    }
}

/// Machine bounds for casting the named spell, when it is known: spending
/// its mana and applying its damage fit the types.
pub open spec fn cast_fits(p: Player, e: Enemy, name: Seq<char>) -> bool {
    ({
        let fm = first_spell(p.spell_inventory@, name);
        fm >= 0 ==> {
            let s = p.spell_inventory@[fm];
            &&& i32::MIN <= p.mp - s.mp_cost <= i32::MAX
            &&& i32::MIN <= e.hp - s.damage <= i32::MAX
        }
    })
}

/// Machine bounds for using the named item: a herb heal must fit the type.
pub open spec fn item_fits(p: Player, name: Seq<char>) -> bool {
    first_match(p.inventory.deep_view(), name) >= 0 && is_herb_name(name) ==> p.hp + 25
        <= i32::MAX
}

/// One action a player can take against a spawned enemy.  `Quit` leaves the
/// encounter exactly as fleeing does.
#[derive(Clone, Debug, PartialEq, Eq)]
pub enum CombatAction {
    Attack,
    Cast(String),
    UseItem(String),
    Flee,
    Quit,
}

/// How one turn ended: the encounter is over (victory, defeat, fled), goes
/// on, or the cast failed locally with no turn consumed.
#[derive(Clone, Copy, PartialEq, Eq, Structural, Debug)]
pub enum TurnOutcome {
    Victory,
    Defeat,
    Fled,
    Continue,
    CastFailed,
}

/// Machine bounds for one whole turn with the given action.
pub open spec fn turn_fits(p: Player, e: Enemy, action: CombatAction) -> bool {
    match action {
        CombatAction::Attack => attack_fits(p, e) && rewards_fit(p, e) && counter_fits(p, e),
        CombatAction::Cast(name) => cast_fits(p, e, name@) && rewards_fit(p, e) && counter_fits(
            p,
            e,
        ),
        CombatAction::UseItem(name) => item_fits(p, name@) && counter_fits_at(
            hp_after_item(p, name@),
            p,
            e,
        ),
        CombatAction::Flee => true,
        CombatAction::Quit => true,
    }
}

/// `p1` is `p0` after one enemy counter-attack: between 1 damage and the
/// counter cap, and nothing else touched.
pub open spec fn countered(p0: Player, p1: Player, e: Enemy) -> bool {
    &&& p0.hp - counter_cap(e, p0) <= p1.hp <= p0.hp - 1
    &&& p1 == (Player { hp: p1.hp, ..p0 })
}

/// `p1` is `p0` after collecting the enemy's rewards: experience and gold
/// raised by the amounts fixed at spawn, and nothing else touched.
pub open spec fn rewarded(p0: Player, p1: Player, e: Enemy) -> bool {
    &&& p1.exp == p0.exp + e.exp_to_give
    &&& p1.gold == p0.gold + e.gold_to_give
    &&& p1 == (Player { exp: p1.exp, gold: p1.gold, ..p0 })
}

/// Rolls the player's attack damage, uniform over
/// `[weapon minimum, max(weapon maximum, 1) + strength]`.
fn attack_roll(p: &Player) -> (d: i32)
    requires
        attack_lo(*p) <= attack_hi(*p),
        i32::MIN <= attack_hi(*p) <= i32::MAX,
    ensures
        attack_lo(*p) <= d <= attack_hi(*p),
{
    let cap = if p.equipped_weapon.max_damage < 1 {
        1
    } else {
        p.equipped_weapon.max_damage
    };
    roll_between(p.equipped_weapon.min_damage, cap + p.strength)
}

/// One enemy counter-attack: rolls damage in `[1, counter cap]`, applies it,
/// and reports whether the player is still standing.
fn enemy_counter(player: &mut Player, enemy: &Enemy) -> (alive: bool)
    requires
        counter_fits(*old(player), *enemy),
    ensures
        countered(*old(player), *final(player), *enemy),
        alive == (final(player).hp > 0),
{
    let base = if enemy.attack < 1 {
        1
    } else {
        enemy.attack
    };
    let ub = base - player.defense;
    let c = if ub < 1 {
        1
    } else {
        roll_between(1, ub)
    };
    player.take_damage(c);
    player.hp > 0
}

/// Grants the enemy's rewards, fixed at its spawn, to the player.
fn grant_rewards(player: &mut Player, enemy: &Enemy)
    requires
        rewards_fit(*old(player), *enemy),
    ensures
        rewarded(*old(player), *final(player), *enemy),
{
    player.gain_exp(enemy.exp_to_give);
    player.gain_gold(enemy.gold_to_give);
}

/// Finds the first known spell with the given name.
fn find_spell(p: &Player, name: &str) -> (idx: Option<usize>)
    ensures
        match idx {
            Some(i) => i < p.spell_inventory@.len() && first_spell(p.spell_inventory@, name@)
                == i,
            None => first_spell(p.spell_inventory@, name@) < 0,
        },
{
    let n = p.spell_inventory.len();
    let mut k: usize = 0;
    while k < n
        invariant
            k <= n,
            n == p.spell_inventory@.len(),
            forall|j: int| 0 <= j < k ==> p.spell_inventory@[j].name@ != name@,
        decreases n - k,
    {
        if str_eq(p.spell_inventory[k].name.as_str(), name) {
            proof {
                lemma_first_spell_at(p.spell_inventory@, name@, k as int);
            }
            return Some(k);
        }
        k = k + 1;
    }
    proof {
        lemma_first_spell_absent(p.spell_inventory@, name@);
    }
    None
}

/// Resolves one turn of an encounter.
///
/// Attacking rolls weapon damage against the enemy; killing it grants the
/// rewards fixed at spawn and ends in victory with no counter-attack.
/// Casting spends the named spell's mana and applies its fixed damage, or
/// fails locally — unknown spell or too little mana — with no state change
/// and no counter-attack.  Using an item delegates to the inventory and is
/// always followed by a counter-attack.  Fleeing (or quitting) ends the
/// encounter with no state change at all.  Any counter-attack that leaves
/// the player at or below zero health ends in defeat, with no rewards.
pub fn combat_turn(player: &mut Player, enemy: &mut Enemy, action: &CombatAction) -> (out:
    TurnOutcome)
    requires
        turn_fits(*old(player), *old(enemy), *action),
    ensures
        *final(enemy) == (Enemy { hp: final(enemy).hp, ..*old(enemy) }),
        old(enemy).wf() ==> final(enemy).wf(),
        ({
            // An attack against an enemy whose health is within even the
            // smallest possible roll always ends in victory.
            match *action {
                CombatAction::Attack => old(enemy).hp <= attack_lo(*old(player)) ==> out
                    == TurnOutcome::Victory,
                _ => true,
            }
        }),
        ({
            match *action {
                CombatAction::Attack => match out {
                    TurnOutcome::Victory => {
                        &&& old(enemy).hp - attack_hi(*old(player)) <= final(enemy).hp <= old(enemy).hp - attack_lo(*old(player))
                        &&& final(enemy).hp <= 0
                        &&& rewarded(*old(player), *final(player), *old(enemy))
                    },
                    TurnOutcome::Continue => {
                        &&& old(enemy).hp - attack_hi(*old(player)) <= final(enemy).hp <= old(enemy).hp - attack_lo(*old(player))
                        &&& final(enemy).hp > 0
                        &&& countered(*old(player), *final(player), *old(enemy))
                        &&& final(player).hp > 0
                    },
                    TurnOutcome::Defeat => {
                        &&& old(enemy).hp - attack_hi(*old(player)) <= final(enemy).hp <= old(enemy).hp - attack_lo(*old(player))
                        &&& final(enemy).hp > 0
                        &&& countered(*old(player), *final(player), *old(enemy))
                        &&& final(player).hp <= 0
                    },
                    _ => false,
                },
                CombatAction::Cast(name) => ({
                    let fm = first_spell(old(player).spell_inventory@, name@);
                    match out {
                        TurnOutcome::CastFailed => {
                            &&& fm < 0 || old(player).mp < old(player).spell_inventory@[fm].mp_cost
                            &&& *final(player) == *old(player)
                            &&& *final(enemy) == *old(enemy)
                        },
                        TurnOutcome::Victory => fm >= 0 && ({
                            let s = old(player).spell_inventory@[fm];
                            &&& old(player).mp >= s.mp_cost
                            &&& final(enemy).hp == old(enemy).hp - s.damage
                            &&& final(enemy).hp <= 0
                            &&& final(player).mp == old(player).mp - s.mp_cost
                            &&& final(player).exp == old(player).exp + old(enemy).exp_to_give
                            &&& final(player).gold == old(player).gold + old(enemy).gold_to_give
                            &&& *final(player) == (Player {
                                mp: final(player).mp,
                                exp: final(player).exp,
                                gold: final(player).gold,
                                ..*old(player)
                            })
                        }),
                        TurnOutcome::Continue => fm >= 0 && ({
                            let s = old(player).spell_inventory@[fm];
                            &&& old(player).mp >= s.mp_cost
                            &&& final(enemy).hp == old(enemy).hp - s.damage
                            &&& final(enemy).hp > 0
                            &&& final(player).mp == old(player).mp - s.mp_cost
                            &&& countered(
                                (Player { mp: final(player).mp, ..*old(player) }),
                                *final(player),
                                *old(enemy),
                            )
                            &&& final(player).hp > 0
                        }),
                        TurnOutcome::Defeat => fm >= 0 && ({
                            let s = old(player).spell_inventory@[fm];
                            &&& old(player).mp >= s.mp_cost
                            &&& final(enemy).hp == old(enemy).hp - s.damage
                            &&& final(enemy).hp > 0
                            &&& final(player).mp == old(player).mp - s.mp_cost
                            &&& countered(
                                (Player { mp: final(player).mp, ..*old(player) }),
                                *final(player),
                                *old(enemy),
                            )
                            &&& final(player).hp <= 0
                        }),
                        _ => false,
                    }
                }),
                CombatAction::UseItem(name) => ({
                    let names = old(player).inventory.deep_view();
                    let fm = first_match(names, name@);
                    let hp_mid = hp_after_item(*old(player), name@);
                    let inv_ok = if fm >= 0 {
                        final(player).inventory.deep_view() == names.remove(fm)
                    } else {
                        final(player).inventory.deep_view() == names
                    };
                    match out {
                        TurnOutcome::Continue => {
                            &&& *final(enemy) == *old(enemy)
                            &&& inv_ok
                            &&& hp_mid - counter_cap(*old(enemy), *old(player)) <= final(player).hp <= hp_mid - 1
                            &&& final(player).hp > 0
                            &&& *final(player) == (Player {
                                hp: final(player).hp,
                                inventory: final(player).inventory,
                                ..*old(player)
                            })
                        },
                        TurnOutcome::Defeat => {
                            &&& *final(enemy) == *old(enemy)
                            &&& inv_ok
                            &&& hp_mid - counter_cap(*old(enemy), *old(player)) <= final(player).hp <= hp_mid - 1
                            &&& final(player).hp <= 0
                            &&& *final(player) == (Player {
                                hp: final(player).hp,
                                inventory: final(player).inventory,
                                ..*old(player)
                            })
                        },
                        _ => false,
                    }
                }),
                CombatAction::Flee => {
                    &&& out == TurnOutcome::Fled
                    &&& *final(player) == *old(player)
                    &&& *final(enemy) == *old(enemy)
                },
                CombatAction::Quit => {
                    &&& out == TurnOutcome::Fled
                    &&& *final(player) == *old(player)
                    &&& *final(enemy) == *old(enemy)
                },
            }
        }),
{
    match action {
        CombatAction::Attack => {
            let d = attack_roll(player);
            enemy.hp = enemy.hp - d;
            if enemy.hp <= 0 {
                grant_rewards(player, enemy);
                TurnOutcome::Victory
            } else {
                let alive = enemy_counter(player, enemy);
                if alive {
                    TurnOutcome::Continue
                } else {
                    TurnOutcome::Defeat
                }
            }
        },
        CombatAction::Cast(name) => {
            let idx = find_spell(player, name.as_str());
            match idx {
                Option::None => TurnOutcome::CastFailed,
                Option::Some(i) => {
                    let cost = spell_cost_at(player, i);
                    let dmg = spell_damage_at(player, i);
                    if player.mp < cost {
                        TurnOutcome::CastFailed
                    } else {
                        player.remove_mp(cost);
                        enemy.hp = enemy.hp - dmg;
                        if enemy.hp <= 0 {
                            grant_rewards(player, enemy);
                            TurnOutcome::Victory
                        } else {
                            let alive = enemy_counter(player, enemy);
                            if alive {
                                TurnOutcome::Continue
                            } else {
                                TurnOutcome::Defeat
                            }
                        }
                    }
                },
            }
        },
        CombatAction::UseItem(name) => {
            let _used = player.use_item(name.as_str());
            let alive = enemy_counter(player, enemy);
            if alive {
                TurnOutcome::Continue
            } else {
                TurnOutcome::Defeat
            }
        },
        CombatAction::Flee => TurnOutcome::Fled,
        CombatAction::Quit => TurnOutcome::Fled,
    }
}

/// The mana cost of the known spell at `i`.
fn spell_cost_at(p: &Player, i: usize) -> (c: i32)
    requires
        i < p.spell_inventory@.len(),
    ensures
        c == p.spell_inventory@[i as int].mp_cost,
{
    p.spell_inventory[i].mp_cost
}

/// The damage of the known spell at `i`.
fn spell_damage_at(p: &Player, i: usize) -> (d: i32)
    requires
        i < p.spell_inventory@.len(),
    ensures
        d == p.spell_inventory@[i as int].damage,
{
    p.spell_inventory[i].damage
}

/// The rewards of a well-formed enemy are pinned to the health it was
/// rolled with at spawn: combat, which only moves `hp`, never changes what
/// defeating it pays out.
pub proof fn lemma_rewards_fixed_at_spawn(e0: Enemy, e1: Enemy)
    requires
        e0.wf(),
        e1 == (Enemy { hp: e1.hp, ..e0 }),
    ensures
        e1.wf(),
        e1.exp_to_give == reward_for(e0.spawn_hp@),
        e1.gold_to_give == reward_for(e0.spawn_hp@),
{
}

/// The tier a location token names, if any; an unrecognized token aborts
/// the encounter before anything is spawned.
pub open spec fn location_for(token: Seq<char>) -> Option<Tier> {
    if token == "Plains"@ || token == "plains"@ {
        Some(Tier::Plains)
    } else if token == "Forest"@ || token == "forest"@ {
        Some(Tier::Forest)
    } else if token == "Mountains"@ || token == "mountains"@ {
        Some(Tier::Mountains)
    } else {
        None
    }
}

/// Maps a location token to its tier.
pub fn parse_location(token: &str) -> (t: Option<Tier>)
    ensures
        t == location_for(token@),
{
    if str_eq(token, "Plains") || str_eq(token, "plains") {
        Some(Tier::Plains)
    } else if str_eq(token, "Forest") || str_eq(token, "forest") {
        Some(Tier::Forest)
    } else if str_eq(token, "Mountains") || str_eq(token, "mountains") {
        Some(Tier::Mountains)
    } else {
        None
    }
}

/// The in-combat commands, before any spell or item name is supplied.
#[derive(Clone, Copy, PartialEq, Eq, Structural, Debug)]
pub enum CombatChoice {
    Attack,
    Magic,
    Item,
    Run,
    Quit,
}

/// The command an in-combat token names, if any.
pub open spec fn combat_choice_for(token: Seq<char>) -> Option<CombatChoice> {
    if token == "attack"@ {
        Some(CombatChoice::Attack)
    } else if token == "magic"@ || token == "Magic"@ {
        Some(CombatChoice::Magic)
    } else if token == "item"@ || token == "Item"@ {
        Some(CombatChoice::Item)
    } else if token == "run"@ {
        Some(CombatChoice::Run)
    } else if token == "quit"@ {
        Some(CombatChoice::Quit)
    } else {
        None
    }
}

/// Maps an in-combat token to its command; an unrecognized token consumes
/// no turn.
pub fn parse_combat_choice(token: &str) -> (c: Option<CombatChoice>)
    ensures
        c == combat_choice_for(token@),
{
    if str_eq(token, "attack") {
        Some(CombatChoice::Attack)
    } else if str_eq(token, "magic") || str_eq(token, "Magic") {
        Some(CombatChoice::Magic)
    } else if str_eq(token, "item") || str_eq(token, "Item") {
        Some(CombatChoice::Item)
    } else if str_eq(token, "run") {
        Some(CombatChoice::Run)
    } else if str_eq(token, "quit") {
        Some(CombatChoice::Quit)
    } else {
        None
    }
}

} // verus!

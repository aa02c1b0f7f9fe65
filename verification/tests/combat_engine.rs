use zyveria::combat::{
    combat_turn, parse_combat_choice, parse_location, spawn_enemy, CombatAction, CombatChoice,
    Enemy, Tier, TurnOutcome,
};
use zyveria::player::{Player, Spell, Weapon};

fn fresh(name: &str) -> Player {
    Player::new(name.to_string())
}

#[test]
fn plains_spawn_stays_in_tier_ranges() {
    for _ in 0..50 {
        let e = spawn_enemy(Tier::Plains);
        assert!(5 <= e.hp && e.hp <= 9);
        assert!(1 <= e.attack && e.attack <= 5);
        assert_eq!(e.name, "Goblin");
        assert_eq!(e.exp_to_give, e.hp.max(2) / 2);
        assert_eq!(e.gold_to_give, e.hp.max(2) / 2);
    }
}

#[test]
fn forest_and_mountain_spawns_stay_in_tier_ranges() {
    for _ in 0..50 {
        let e = spawn_enemy(Tier::Forest);
        assert!(10 <= e.hp && e.hp <= 19);
        assert!(5 <= e.attack && e.attack <= 10);
        assert_eq!(e.name, "Bear");
        assert_eq!(e.exp_to_give, e.hp.max(2) / 2);
        let e = spawn_enemy(Tier::Mountains);
        assert!(35 <= e.hp && e.hp <= 49);
        assert!(10 <= e.attack && e.attack <= 15);
        assert_eq!(e.name, "Troll");
        assert_eq!(e.gold_to_give, e.hp.max(2) / 2);
    }
}

#[test]
fn rewards_stay_fixed_after_enemy_takes_damage() {
    let mut p = fresh("A");
    // A weapon rolling exactly 1 damage leaves any plains enemy alive.
    p.equipped_weapon = Weapon {
        name: "Pin".to_string(),
        description: "Barely a weapon.".to_string(),
        min_damage: 1,
        max_damage: 1,
    };
    let mut e = spawn_enemy(Tier::Plains);
    let hp0 = e.hp;
    let exp0 = e.exp_to_give;
    let gold0 = e.gold_to_give;
    let out = combat_turn(&mut p, &mut e, &CombatAction::Attack);
    assert_eq!(out, TurnOutcome::Continue);
    assert_eq!(e.hp, hp0 - 1);
    assert_eq!(e.exp_to_give, exp0);
    assert_eq!(e.gold_to_give, gold0);
    assert_eq!(e.exp_to_give, hp0.max(2) / 2);
}

#[test]
fn rowan_one_hit_victory_grants_one_exp_and_gold() {
    let mut p = fresh("Rowan");
    let mut e = Enemy::new("Goblin".to_string(), 1, 5);
    assert_eq!(e.exp_to_give, 1);
    assert_eq!(e.gold_to_give, 1);
    let out = combat_turn(&mut p, &mut e, &CombatAction::Attack);
    assert_eq!(out, TurnOutcome::Victory);
    assert_eq!(p.exp, 1);
    assert_eq!(p.gold, 1);
    // Victory issues no counter-attack.
    assert_eq!(p.hp, 100);
}

#[test]
fn fleeing_changes_nothing() {
    let mut p = fresh("A");
    p.gain_gold(7);
    p.gain_exp(3);
    let mut e = spawn_enemy(Tier::Mountains);
    let hp0 = e.hp;
    let out = combat_turn(&mut p, &mut e, &CombatAction::Flee);
    assert_eq!(out, TurnOutcome::Fled);
    assert_eq!(p.gold, 7);
    assert_eq!(p.exp, 3);
    assert_eq!(p.hp, 100);
    assert_eq!(e.hp, hp0);
    drop(e);
}

#[test]
fn quitting_mid_fight_changes_nothing_either() {
    let mut p = fresh("A");
    let mut e = spawn_enemy(Tier::Forest);
    let out = combat_turn(&mut p, &mut e, &CombatAction::Quit);
    assert_eq!(out, TurnOutcome::Fled);
    assert_eq!(p.hp, 100);
    assert_eq!(p.gold, 0);
    assert_eq!(p.exp, 0);
}

#[test]
fn overwhelming_defense_still_takes_one_counter_damage() {
    let mut p = fresh("A");
    p.defense = 100;
    let mut e = Enemy::new("Goblin".to_string(), 50, 3);
    // The item is absent, so nothing is consumed, but the counter still lands;
    // with defense above the enemy's whole range it is normalized to 1.
    let out = combat_turn(&mut p, &mut e, &CombatAction::UseItem("Herb".to_string()));
    assert_eq!(out, TurnOutcome::Continue);
    assert_eq!(p.hp, 99);
    assert_eq!(e.hp, 50);
}

#[test]
fn item_use_in_combat_draws_a_counter_attack() {
    let mut p = fresh("A");
    p.add_item("Herb");
    p.take_damage(40);
    let mut e = Enemy::new("Goblin".to_string(), 50, 1);
    let out = combat_turn(&mut p, &mut e, &CombatAction::UseItem("Herb".to_string()));
    assert_eq!(out, TurnOutcome::Continue);
    // Healed to 85, then the enemy's 1-attack counter lands for exactly 1.
    assert_eq!(p.hp, 84);
    assert!(p.inventory.is_empty());
    assert_eq!(e.hp, 50);
}

#[test]
fn casting_unknown_spell_fails_locally() {
    let mut p = fresh("A");
    let mut e = Enemy::new("Goblin".to_string(), 50, 5);
    let out = combat_turn(&mut p, &mut e, &CombatAction::Cast("Firebolt".to_string()));
    assert_eq!(out, TurnOutcome::CastFailed);
    assert_eq!(p.mp, 5);
    assert_eq!(p.hp, 100);
    assert_eq!(e.hp, 50);
}

#[test]
fn casting_without_mana_fails_locally() {
    let mut p = fresh("A");
    p.spell_inventory.push(Spell {
        name: "Firebolt".to_string(),
        description: "A bolt of fire.".to_string(),
        mp_cost: 2,
        damage: 10,
    });
    p.remove_mp(4);
    let mut e = Enemy::new("Goblin".to_string(), 50, 5);
    let out = combat_turn(&mut p, &mut e, &CombatAction::Cast("Firebolt".to_string()));
    assert_eq!(out, TurnOutcome::CastFailed);
    assert_eq!(p.mp, 1);
    assert_eq!(e.hp, 50);
}

#[test]
fn casting_spends_mana_and_applies_fixed_damage() {
    let mut p = fresh("A");
    p.spell_inventory.push(Spell {
        name: "Firebolt".to_string(),
        description: "A bolt of fire.".to_string(),
        mp_cost: 2,
        damage: 10,
    });
    let mut e = Enemy::new("Goblin".to_string(), 50, 1);
    let out = combat_turn(&mut p, &mut e, &CombatAction::Cast("Firebolt".to_string()));
    assert_eq!(out, TurnOutcome::Continue);
    assert_eq!(p.mp, 3);
    assert_eq!(e.hp, 40);
    // The counter after a cast: attack 1 against defense 0 is exactly 1.
    assert_eq!(p.hp, 99);
}

#[test]
fn lethal_cast_wins_with_no_counter() {
    let mut p = fresh("A");
    p.spell_inventory.push(Spell {
        name: "Firebolt".to_string(),
        description: "A bolt of fire.".to_string(),
        mp_cost: 2,
        damage: 10,
    });
    let mut e = Enemy::new("Goblin".to_string(), 8, 5);
    let reward = e.exp_to_give;
    let out = combat_turn(&mut p, &mut e, &CombatAction::Cast("Firebolt".to_string()));
    assert_eq!(out, TurnOutcome::Victory);
    assert_eq!(p.mp, 3);
    assert_eq!(p.hp, 100);
    assert_eq!(p.exp, reward);
    assert_eq!(p.gold, reward);
    assert_eq!(e.hp, -2);
}

#[test]
fn fixed_range_weapon_deals_deterministic_damage() {
    let mut p = fresh("A");
    p.equipped_weapon = Weapon {
        name: "Rod".to_string(),
        description: "Always the same.".to_string(),
        min_damage: 3,
        max_damage: 3,
    };
    let mut e = Enemy::new("Goblin".to_string(), 10, 1);
    let out = combat_turn(&mut p, &mut e, &CombatAction::Attack);
    assert_eq!(out, TurnOutcome::Continue);
    assert_eq!(e.hp, 7);
    assert_eq!(p.hp, 99);
}

#[test]
fn counter_attack_can_defeat_the_player() {
    let mut p = fresh("A");
    p.take_damage(99);
    let mut e = Enemy::new("Goblin".to_string(), 50, 1);
    let out = combat_turn(&mut p, &mut e, &CombatAction::UseItem("nothing".to_string()));
    assert_eq!(out, TurnOutcome::Defeat);
    assert!(p.hp <= 0);
    // Defeat grants no rewards.
    assert_eq!(p.exp, 0);
    assert_eq!(p.gold, 0);
}

#[test]
fn location_tokens_map_to_tiers() {
    assert_eq!(parse_location("Plains"), Some(Tier::Plains));
    assert_eq!(parse_location("plains"), Some(Tier::Plains));
    assert_eq!(parse_location("Forest"), Some(Tier::Forest));
    assert_eq!(parse_location("forest"), Some(Tier::Forest));
    assert_eq!(parse_location("Mountains"), Some(Tier::Mountains));
    assert_eq!(parse_location("mountains"), Some(Tier::Mountains));
    assert_eq!(parse_location("Swamp"), None);
    assert_eq!(parse_location(""), None);
}

#[test]
fn combat_tokens_map_to_choices() {
    assert_eq!(parse_combat_choice("attack"), Some(CombatChoice::Attack));
    assert_eq!(parse_combat_choice("magic"), Some(CombatChoice::Magic));
    assert_eq!(parse_combat_choice("Magic"), Some(CombatChoice::Magic));
    assert_eq!(parse_combat_choice("item"), Some(CombatChoice::Item));
    assert_eq!(parse_combat_choice("Item"), Some(CombatChoice::Item));
    assert_eq!(parse_combat_choice("run"), Some(CombatChoice::Run));
    assert_eq!(parse_combat_choice("quit"), Some(CombatChoice::Quit));
    assert_eq!(parse_combat_choice("dance"), None);
    assert_eq!(parse_combat_choice("Attack"), None);
}

#[test]
fn fresh_player_always_wins_a_plains_fight_by_attacking() {
    // A plains enemy spawns with at most 9 hp and each attack deals at least
    // 1 damage, so it falls within 9 turns; its counters deal at most 5 each,
    // so the player's 100 hp cannot run out first.
    let mut p = fresh("A");
    let mut e = spawn_enemy(Tier::Plains);
    let reward = e.exp_to_give;
    let mut outcome = TurnOutcome::Continue;
    for _ in 0..9 {
        outcome = combat_turn(&mut p, &mut e, &CombatAction::Attack);
        if outcome != TurnOutcome::Continue {
            break;
        }
    }
    assert_eq!(outcome, TurnOutcome::Victory);
    assert!(e.hp <= 0);
    assert_eq!(p.exp, reward);
    assert_eq!(p.gold, reward);
    assert!(p.hp > 100 - 9 * 5);
}

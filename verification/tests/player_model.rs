use zyveria::player::{Archetype, ItemUse, Player};

fn fresh(name: &str) -> Player {
    Player::new(name.to_string())
}

#[test]
fn new_player_has_default_stats() {
    let p = fresh("Rowan");
    assert_eq!(p.name, "Rowan");
    assert_eq!(p.hp, 100);
    assert_eq!(p.max_hp, 100);
    assert_eq!(p.mp, 5);
    assert_eq!(p.max_mp, 5);
    assert_eq!(p.equipped_weapon.name, "Fist");
    assert_eq!(p.equipped_weapon.min_damage, 1);
    assert_eq!(p.equipped_weapon.max_damage, 5);
    assert_eq!(p.level, 0);
    assert_eq!(p.strength, 0);
    assert_eq!(p.defense, 0);
    assert_eq!(p.exp, 0);
    assert_eq!(p.gold, 0);
    assert!(p.inventory.is_empty());
    assert!(p.spell_inventory.is_empty());
}

#[test]
fn take_damage_may_drop_health_below_zero() {
    let mut p = fresh("A");
    p.take_damage(150);
    assert_eq!(p.hp, -50);
}

#[test]
fn heal_never_exceeds_max_health() {
    let mut p = fresh("A");
    p.take_damage(10);
    let capped = p.gain_health(25);
    assert!(capped);
    assert_eq!(p.hp, 100);
}

#[test]
fn heal_below_max_adds_exactly() {
    let mut p = fresh("A");
    p.take_damage(50);
    let capped = p.gain_health(25);
    assert!(!capped);
    assert_eq!(p.hp, 75);
}

#[test]
fn mana_gain_never_exceeds_max() {
    let mut p = fresh("A");
    p.remove_mp(3);
    assert_eq!(p.mp, 2);
    let capped = p.gain_mp(10);
    assert!(capped);
    assert_eq!(p.mp, 5);
    p.remove_mp(2);
    let capped = p.gain_mp(1);
    assert!(!capped);
    assert_eq!(p.mp, 4);
}

#[test]
fn gain_exp_and_gold_accept_signed_amounts() {
    let mut p = fresh("A");
    p.gain_exp(30);
    p.gain_gold(40);
    assert_eq!(p.exp, 30);
    assert_eq!(p.gold, 40);
    p.gain_exp(-10);
    p.gain_gold(-15);
    assert_eq!(p.exp, 20);
    assert_eq!(p.gold, 25);
}

#[test]
fn use_item_not_held_leaves_inventory_unchanged() {
    let mut p = fresh("A");
    p.add_item("Mana Stone");
    let used = p.use_item("Herb");
    assert_eq!(used, ItemUse::NotHeld);
    assert_eq!(p.inventory, vec!["Mana Stone".to_string()]);
    assert_eq!(p.hp, 100);
}

#[test]
fn use_item_herb_heals_25_clamped() {
    let mut p = fresh("A");
    p.add_item("Herb");
    let used = p.use_item("Herb");
    assert_eq!(used, ItemUse::Healed);
    assert_eq!(p.hp, 100);
    assert!(p.inventory.is_empty());
}

#[test]
fn use_item_herb_heals_exactly_25_when_room() {
    let mut p = fresh("A");
    p.take_damage(40);
    p.add_item("Herb");
    let used = p.use_item("Herb");
    assert_eq!(used, ItemUse::Healed);
    assert_eq!(p.hp, 85);
}

#[test]
fn use_item_lowercase_herb_heals_too() {
    let mut p = fresh("A");
    p.take_damage(40);
    p.add_item("herb");
    let used = p.use_item("herb");
    assert_eq!(used, ItemUse::Healed);
    assert_eq!(p.hp, 85);
}

#[test]
fn use_item_removes_exactly_one_instance_in_order() {
    let mut p = fresh("A");
    p.add_item("Herb");
    p.add_item("Mana Stone");
    p.add_item("Herb");
    p.take_damage(40);
    let used = p.use_item("Herb");
    assert_eq!(used, ItemUse::Healed);
    assert_eq!(p.inventory, vec!["Mana Stone".to_string(), "Herb".to_string()]);
}

#[test]
fn use_item_without_effect_is_still_consumed() {
    let mut p = fresh("A");
    p.add_item("Mana Stone");
    let used = p.use_item("Mana Stone");
    assert_eq!(used, ItemUse::NoEffect);
    assert!(p.inventory.is_empty());
    assert_eq!(p.hp, 100);
    assert_eq!(p.mp, 5);
}

#[test]
fn warrior_level_up_table() {
    let mut p = fresh("A");
    p.apply_level_up(Archetype::Warrior);
    assert_eq!(p.level, 1);
    assert_eq!(p.strength, 1);
    assert_eq!(p.defense, 2);
    assert_eq!(p.max_hp, 110);
    assert_eq!(p.max_mp, 6);
    assert_eq!(p.hp, 100);
    assert_eq!(p.mp, 5);
}

#[test]
fn mage_level_up_table() {
    let mut p = fresh("A");
    p.apply_level_up(Archetype::Mage);
    assert_eq!(p.level, 1);
    assert_eq!(p.strength, 0);
    assert_eq!(p.defense, 1);
    assert_eq!(p.max_hp, 105);
    assert_eq!(p.max_mp, 8);
}

#[test]
fn barbarian_level_up_table() {
    let mut p = fresh("A");
    p.apply_level_up(Archetype::Barbarian);
    assert_eq!(p.level, 1);
    assert_eq!(p.strength, 2);
    assert_eq!(p.defense, 1);
    assert_eq!(p.max_hp, 112);
    assert_eq!(p.max_mp, 5);
}

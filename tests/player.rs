use card_battle::card::{create_attack_card, create_defense_card};
use card_battle::combat::Combatant;
use card_battle::player::{PassiveSkill, Player, MAX_SKILLS};
use card_battle::skill::create_emergency_heal;

#[test]
fn new_player_full_hp() {
    let p = Player::new("勇者", 3);
    assert_eq!(p.hp(), 3);
    assert_eq!(p.max_hp(), 3);
    assert!(p.is_alive());
}

#[test]
fn new_player_defaults() {
    let p = Player::new("勇者", 3);
    assert_eq!(p.gold(), 0);
    assert!(p.passive().is_none());
    assert_eq!(p.victory_bonus_gold(), 0);
}

#[test]
fn passive_skill_bonus_gold() {
    let mut p = Player::new("勇者", 3);
    p.set_passive(PassiveSkill::Prepared);
    assert_eq!(p.passive().unwrap().name(), "预备");
    assert_eq!(p.victory_bonus_gold(), 1);
}

#[test]
fn player_can_hold_cards() {
    let mut p = Player::new("勇者", 3);
    p.add_card(create_attack_card());
    assert_eq!(p.hand.len(), 1);
}

#[test]
fn player_dies_at_zero_hp() {
    let mut p = Player::new("勇者", 1);
    p.take_damage(1);
    assert!(!p.is_alive());
}

#[test]
fn equip_up_to_max_skills() {
    let mut p = Player::new("勇者", 3);
    assert!(p.equip_skill(create_emergency_heal()));
    assert!(p.equip_skill(create_emergency_heal()));
    assert!(!p.equip_skill(create_emergency_heal()));
    assert_eq!(p.skills.len(), MAX_SKILLS);
}

#[test]
fn heal_capped_at_max_hp() {
    let mut p = Player::new("勇者", 3);
    p.take_damage(1);
    assert_eq!(p.hp(), 2);
    let healed = p.heal(5);
    assert_eq!(healed, 1);
    assert_eq!(p.hp(), 3);
}

#[test]
fn tick_skill_cooldowns() {
    let mut p = Player::new("勇者", 3);
    p.equip_skill(create_emergency_heal());
    p.skills[0].trigger_cooldown();
    assert!(!p.skills[0].is_ready());
    for _ in 0..4 {
        p.tick_skill_cooldowns();
    }
    assert!(p.skills[0].is_ready());
}

#[test]
fn heal_when_full_returns_zero() {
    let mut p = Player::new("勇者", 3);
    assert_eq!(p.heal(2), 0);
    assert_eq!(p.hp(), 3);
}

#[test]
fn gold_never_negative() {
    let mut p = Player::new("勇者", 3);
    p.add_gold(5);
    assert_eq!(p.gold(), 5);
    p.add_gold(-7);
    assert_eq!(p.gold(), 0);
}

#[test]
fn card_cooldowns_tick_and_reduce_together() {
    let mut p = Player::new("勇者", 3);
    p.add_card(create_attack_card());
    p.add_card(create_defense_card());
    p.trigger_card(0);
    p.trigger_card(1);
    p.tick_card_cooldowns_ms(500);
    assert_eq!(p.card(0).remaining_cooldown_ms(), 2_500);
    p.reduce_card_cooldowns_ms(1_000);
    assert_eq!(p.card(1).remaining_cooldown_ms(), 1_500);
    assert_eq!(p.card_count(), 2);
    assert_eq!(p.skill_count(), 0);
}

#[test]
fn player_shield_and_status() {
    let mut p = Player::new("勇者", 3);
    p.add_shield(2);
    assert_eq!(p.shield(), 2);
    p.take_damage(3);
    assert_eq!(p.shield(), 0);
    assert_eq!(p.hp(), 2);
    assert_eq!(p.display_status(), "勇者: 2/3 HP");
    assert_eq!(p.speed(), 3);
}

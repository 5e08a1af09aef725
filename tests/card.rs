use card_battle::card::{create_attack_card, create_defense_card, Card, CardEffect, DEFAULT_CARD_COOLDOWN_MS};

#[test]
fn attack_card_deals_one_damage() {
    let card = create_attack_card();
    assert_eq!(card.name, "攻击");
    match card.effect {
        CardEffect::Damage(d) => assert_eq!(d, 1),
        CardEffect::Shield(_) => panic!("the attack card deals damage"),
    }
}

#[test]
fn defense_card_gives_shield() {
    let card = create_defense_card();
    assert_eq!(card.name, "防御");
    assert!(matches!(card.effect, CardEffect::Shield(1)));
}

#[test]
fn card_display() {
    let c = Card::new("攻击", "造成 1 点伤害", CardEffect::Damage(1), 3_000);
    assert_eq!(c.to_string(), "攻击 - 造成 1 点伤害");
}

#[test]
fn cooldown_tick_in_ms() {
    let mut c = Card::new("攻击", "造成 1 点伤害", CardEffect::Damage(1), 3_000);
    c.trigger_cooldown();
    assert!(!c.is_ready());
    assert_eq!(c.remaining_cooldown_secs(), 3);

    c.tick_cooldown_ms(1_500);
    assert_eq!(c.remaining_cooldown_ms(), 1_500);
    assert_eq!(c.remaining_cooldown_secs(), 2);

    c.tick_cooldown_ms(1_500);
    assert!(c.is_ready());
    assert_eq!(c.remaining_cooldown_ms(), 0);
}

#[test]
fn basic_cards_start_ready_with_default_cooldown() {
    let a = create_attack_card();
    let d = create_defense_card();
    assert!(a.is_ready());
    assert!(d.is_ready());
    assert_eq!(a.cooldown_ms(), DEFAULT_CARD_COOLDOWN_MS);
    assert_eq!(d.cooldown_ms(), 3_000);
    assert_eq!(d.description, "获得 1 点护盾，持续 1 回合");
}

#[test]
fn initial_lockout_overrides_remaining_only() {
    let mut c = create_attack_card();
    c.set_initial_cooldown_ms(1_000);
    assert_eq!(c.remaining_cooldown_ms(), 1_000);
    assert_eq!(c.cooldown_ms(), 3_000);
    assert_eq!(c.remaining_cooldown_secs(), 1);
    c.trigger_cooldown();
    assert_eq!(c.remaining_cooldown_ms(), 3_000);
}

#[test]
fn reduce_cooldown_floors_at_zero() {
    let mut c = create_attack_card();
    c.trigger_cooldown();
    c.reduce_cooldown_ms(1_000);
    assert_eq!(c.remaining_cooldown_ms(), 2_000);
    c.reduce_cooldown_ms(5_000);
    assert_eq!(c.remaining_cooldown_ms(), 0);
    assert!(c.is_ready());
}

#[test]
fn remaining_secs_rounds_up() {
    let mut c = Card::new("x", "y", CardEffect::Damage(1), 3_000);
    c.set_initial_cooldown_ms(1);
    assert_eq!(c.remaining_cooldown_secs(), 1);
    c.set_initial_cooldown_ms(2_001);
    assert_eq!(c.remaining_cooldown_secs(), 3);
    c.set_initial_cooldown_ms(0);
    assert_eq!(c.remaining_cooldown_secs(), 0);
}

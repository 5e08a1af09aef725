use card_battle::engine::ROUND_DURATION_MS;
use card_battle::skill::{create_emergency_heal, create_fast_cycle, Skill, SkillEffect};

#[test]
fn emergency_heal_properties() {
    let s = create_emergency_heal();
    assert_eq!(s.name, "紧急救治");
    assert_eq!(s.cooldown_ms(), 20_000);
    assert!(s.is_ready());
    assert!(matches!(s.effect, SkillEffect::Heal(1)));
}

#[test]
fn fast_cycle_properties() {
    let s = create_fast_cycle();
    assert_eq!(s.name, "快速循环");
    // Twenty seconds of cooldown are four rounds; the lockout is one round.
    assert_eq!(s.cooldown_ms() / ROUND_DURATION_MS, 4);
    assert!(!s.is_ready());
    assert_eq!(s.remaining_cooldown_ms() / ROUND_DURATION_MS, 1);
    assert!(matches!(
        s.effect,
        SkillEffect::ReduceAllCardCooldownMs(1_000)
    ));
}

#[test]
fn skill_starts_ready() {
    let s = Skill::new("测试", "测试技能", SkillEffect::Heal(1), 4_000);
    assert!(s.is_ready());
}

#[test]
fn cooldown_cycle() {
    let mut s = Skill::new("测试", "测试技能", SkillEffect::Heal(1), 3_000);
    s.trigger_cooldown();
    assert!(!s.is_ready());
    assert_eq!(s.remaining_cooldown_secs(), 3);

    assert!(!s.tick_cooldown_ms(1_500));
    assert_eq!(s.remaining_cooldown_secs(), 2);
    assert!(!s.tick_cooldown_ms(1_000));
    assert_eq!(s.remaining_cooldown_secs(), 1);
    assert!(s.tick_cooldown_ms(1_500));
    assert_eq!(s.remaining_cooldown_ms(), 0);
    assert!(s.is_ready());
}

#[test]
fn display_ready() {
    let s = Skill::new("紧急救治", "恢复 1 点生命值", SkillEffect::Heal(1), 4_000);
    let text = s.to_string();
    assert!(text.contains("可用"));
}

#[test]
fn display_on_cooldown() {
    let mut s = Skill::new("紧急救治", "恢复 1 点生命值", SkillEffect::Heal(1), 4_000);
    s.trigger_cooldown();
    let text = s.to_string();
    assert!(text.contains("冷却 4 秒"));
}

#[test]
fn display_full_lines() {
    let mut s = Skill::new("紧急救治", "恢复 1 点生命值", SkillEffect::Heal(1), 12_000);
    assert_eq!(s.to_string(), "紧急救治 - 恢复 1 点生命值 [可用]");
    s.trigger_cooldown();
    assert_eq!(s.to_string(), "紧急救治 - 恢复 1 点生命值 [冷却 12 秒]");
}

#[test]
fn fast_cycle_exact_timings() {
    let s = create_fast_cycle();
    assert_eq!(s.cooldown_ms(), 20_000);
    assert_eq!(s.remaining_cooldown_ms(), 5_000);
    assert_eq!(s.remaining_cooldown_secs(), 5);
    let s2 = Skill::new("a", "b", SkillEffect::Heal(2), 9_000).with_initial_cooldown_ms(250);
    assert_eq!(s2.remaining_cooldown_ms(), 250);
    assert_eq!(s2.cooldown_ms(), 9_000);
}

#[test]
fn tick_zero_does_not_report_ready() {
    let mut s = Skill::new("a", "b", SkillEffect::Heal(1), 1_000);
    assert!(!s.tick_cooldown_ms(1_000));
    s.trigger_cooldown();
    assert!(!s.tick_cooldown_ms(0));
    assert_eq!(s.remaining_cooldown_ms(), 1_000);
}

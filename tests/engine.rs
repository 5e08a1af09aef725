use card_battle::combat::{Combatant, Outcome};
use card_battle::engine::{
    enemy_action_window, plan_enemy_action, EffectReport, GameEngine, PlayerAction, RoundStep,
    LOOP_TICK_MS, ROUND_DURATION_MS,
};

#[test]
fn planner_with_ready_card_stays_in_window() {
    let mut distinct = std::collections::BTreeSet::new();
    for _ in 0..200 {
        let t = plan_enemy_action(0, 5_000, 0).unwrap();
        assert!(t <= 4_700);
        distinct.insert(t);
        let t2 = plan_enemy_action(1_000, 6_000, 0).unwrap();
        assert!((1_000..=5_700).contains(&t2));
    }
    // The instant is drawn across the window, not pinned to one end.
    assert!(distinct.len() > 1);
}

#[test]
fn planner_respects_cooldown_and_round_end() {
    for _ in 0..100 {
        let t = plan_enemy_action(10_000, 15_000, 2_000).unwrap();
        assert!((12_000..=14_700).contains(&t));
    }
    assert_eq!(plan_enemy_action(0, 5_000, 4_800), Some(4_800));
    assert_eq!(plan_enemy_action(0, 5_000, 4_700), Some(4_700));
    assert_eq!(plan_enemy_action(0, 5_000, 5_000), None);
    assert_eq!(plan_enemy_action(0, 5_000, u64::MAX), None);
    assert_eq!(plan_enemy_action(7, 7, 0), None);
}

#[test]
fn window_bounds() {
    assert_eq!(enemy_action_window(0, 5_000, 0), Some((0, 4_700)));
    assert_eq!(enemy_action_window(100, 5_100, 1_000), Some((1_100, 4_800)));
    assert_eq!(enemy_action_window(0, 5_000, 4_900), Some((4_900, 4_900)));
    assert_eq!(enemy_action_window(0, 5_000, 6_000), None);
}

#[test]
fn new_game_setup() {
    let e = GameEngine::new();
    assert_eq!(e.round(), 1);
    assert_eq!(e.player().name(), "勇者");
    assert_eq!(e.player().hp(), 3);
    assert_eq!(e.player().card_count(), 2);
    assert_eq!(e.player().skill_count(), 2);
    assert_eq!(e.player().card(0).remaining_cooldown_ms(), 1_000);
    assert_eq!(e.player().card(1).remaining_cooldown_ms(), 1_000);
    assert_eq!(e.player().skill(1).remaining_cooldown_ms(), 5_000);
    assert_eq!(e.enemy().name(), "史莱姆");
    assert_eq!(e.enemy().hp(), 3);
    assert_eq!(e.enemy_card().remaining_cooldown_ms(), 2_000);
    assert!(e.both_alive());
}

#[test]
fn two_card_lines_in_one_round() {
    let mut e = GameEngine::new();
    let mut round = e.begin_round(0);
    let lines = vec!["1".to_string(), "2".to_string()];
    let report = e.step(&mut round, 1_000, &lines);
    assert_eq!(report.actions.len(), 2);
    assert_eq!(
        report.actions[0],
        PlayerAction::CardPlayed {
            index: 0,
            report: EffectReport::Hit(Outcome { dodged: false, absorbed: 0, dealt: 1, healed: 0 }),
        }
    );
    assert_eq!(report.actions[1], PlayerAction::CardAlreadyUsed);
    assert_eq!(e.enemy().hp(), 2);
    assert!(round.player_used_card);
    assert!(round.player_acted);
    assert_eq!(e.player().shield(), 0);
}

#[test]
fn skill_usable_after_card() {
    let mut e = GameEngine::new();
    let mut round = e.begin_round(0);
    let lines = vec!["2".to_string(), "3".to_string(), "4".to_string()];
    let report = e.step(&mut round, 1_500, &lines);
    assert_eq!(
        report.actions[0],
        PlayerAction::CardPlayed { index: 1, report: EffectReport::Shielded(1) }
    );
    assert_eq!(
        report.actions[1],
        PlayerAction::SkillUsed { index: 0, report: EffectReport::Healed(0) }
    );
    assert_eq!(
        report.actions[2],
        PlayerAction::SkillNotReady { index: 1, remaining_secs: 4 }
    );
    assert_eq!(e.player().shield(), 1);
}

#[test]
fn invalid_and_cooling_inputs() {
    let mut e = GameEngine::new();
    let mut round = e.begin_round(0);
    assert_eq!(e.handle_input(&mut round, "0"), PlayerAction::Invalid { total: 4 });
    assert_eq!(e.handle_input(&mut round, "5"), PlayerAction::Invalid { total: 4 });
    assert_eq!(e.handle_input(&mut round, "x"), PlayerAction::Invalid { total: 4 });
    assert_eq!(
        e.handle_input(&mut round, "1"),
        PlayerAction::CardNotReady { index: 0, remaining_secs: 1 }
    );
    assert!(!round.player_used_card);
    assert!(!round.player_acted);
}

#[test]
fn fast_cycle_shortens_card_cooldowns() {
    let mut e = GameEngine::new();
    let mut round = e.begin_round(0);
    e.advance_clock(&mut round, 5_000);
    assert_eq!(e.handle_input(&mut round, "1"), PlayerAction::CardPlayed {
        index: 0,
        report: EffectReport::Hit(Outcome { dodged: false, absorbed: 0, dealt: 1, healed: 0 }),
    });
    assert_eq!(
        e.handle_input(&mut round, " 4 "),
        PlayerAction::SkillUsed { index: 1, report: EffectReport::CooldownsReduced(1_000) }
    );
    assert_eq!(e.player().card(0).remaining_cooldown_ms(), 2_000);
    assert_eq!(e.player().skill(1).remaining_cooldown_ms(), 20_000);
    assert!(round.player_acted);
}

#[test]
fn opponent_acts_once_when_due() {
    let mut e = GameEngine::new();
    let mut round = e.begin_round(0);
    let planned = round.enemy_action_at.unwrap();
    assert!((2_000..=4_700).contains(&planned));
    let none: Vec<String> = Vec::new();
    let early = e.step(&mut round, 1_000, &none);
    assert!(early.enemy.is_none() || planned <= 1_000);
    let due = e.step(&mut round, planned.max(2_000), &none);
    assert_eq!(
        due.enemy,
        Some(EffectReport::Hit(Outcome { dodged: false, absorbed: 0, dealt: 1, healed: 0 }))
    );
    assert!(round.enemy_acted);
    assert_eq!(e.player().hp(), 2);
    assert_eq!(e.enemy_card().remaining_cooldown_ms(), 3_000);
    let again = e.step(&mut round, 4_999, &none);
    assert!(again.enemy.is_none());
    assert_eq!(e.player().hp(), 2);
}

#[test]
fn execute_enemy_action_needs_ready_card() {
    let mut e = GameEngine::new();
    assert_eq!(e.execute_enemy_action(), None);
    e.tick_cooldowns(2_000);
    assert!(e.execute_enemy_action().is_some());
    assert_eq!(e.player().hp(), 2);
    assert_eq!(e.execute_enemy_action(), None);
}

#[test]
fn next_step_and_settling() {
    let mut e = GameEngine::new();
    let round = e.begin_round(100);
    assert_eq!(round.end_ms, 100 + ROUND_DURATION_MS);
    assert_eq!(e.next_step(&round, 100), RoundStep::Wait(LOOP_TICK_MS));
    assert_eq!(e.next_step(&round, 5_050), RoundStep::Wait(50));
    assert_eq!(e.next_step(&round, 5_100), RoundStep::RoundOver);
    e.tick_cooldowns(1_000);
    e.execute_choice(Some(2), false);
    assert_eq!(e.player().shield(), 1);
    e.finish_round();
    assert_eq!(e.player().shield(), 0);
    assert_eq!(e.round(), 2);
}

#[test]
fn battle_finishes_when_a_side_falls() {
    let mut e = GameEngine::new();
    let mut round = e.begin_round(0);
    let mut now = 0;
    for _ in 0..3 {
        now += 3_000;
        e.advance_clock(&mut round, now);
        round.player_used_card = false;
        let a = e.handle_input(&mut round, "1");
        assert!(matches!(a, PlayerAction::CardPlayed { .. }));
    }
    assert_eq!(e.enemy().hp(), 0);
    assert!(!e.both_alive());
    assert_eq!(e.next_step(&round, now), RoundStep::Finished);
}

#[test]
fn clock_flush_ticks_remaining_time() {
    let mut e = GameEngine::new();
    let mut round = e.begin_round(0);
    e.advance_clock(&mut round, 400);
    assert_eq!(round.last_tick_ms, 400);
    e.advance_clock(&mut round, 400);
    e.advance_clock(&mut round, 300);
    assert_eq!(round.last_tick_ms, 400);
    assert_eq!(e.player().card(0).remaining_cooldown_ms(), 600);
    assert_eq!(e.enemy_card().remaining_cooldown_ms(), 1_600);
    assert_eq!(e.player().skill(1).remaining_cooldown_ms(), 4_600);
}

#[test]
fn end_round_settles_only_when_both_stand() {
    let mut e = GameEngine::new();
    let mut round = e.begin_round(0);
    e.advance_clock(&mut round, 1_000);
    e.handle_input(&mut round, "2");
    assert_eq!(e.player().shield(), 1);
    assert!(e.end_round(&mut round, 5_000));
    assert_eq!(round.last_tick_ms, 5_000);
    assert_eq!(e.player().shield(), 0);
    assert_eq!(e.round(), 2);
    assert_eq!(e.player().card(1).remaining_cooldown_ms(), 0);

    let mut round = e.begin_round(5_000);
    for now in [5_000, 8_000, 11_000] {
        e.advance_clock(&mut round, now);
        round.player_used_card = false;
        e.handle_input(&mut round, "1");
    }
    assert!(!e.end_round(&mut round, 11_000));
    assert_eq!(e.round(), 2);
}

#[test]
fn opponent_forfeits_when_card_not_ready_at_planned_instant() {
    let mut e = GameEngine::new();
    let mut round = e.begin_round(0);
    // Pretend the plan came due while the card still cools down.
    round.enemy_action_at = Some(500);
    let none: Vec<String> = Vec::new();
    let r1 = e.step(&mut round, 600, &none);
    assert!(r1.enemy.is_none());
    assert!(round.enemy_forfeited);
    assert!(!round.enemy_acted);
    let r2 = e.step(&mut round, 4_000, &none);
    assert!(r2.enemy.is_none());
    assert!(e.enemy_card().is_ready());
    assert_eq!(e.player().hp(), 3);
}

#[test]
fn step_after_round_end_only_advances_clock() {
    let mut e = GameEngine::new();
    let mut round = e.begin_round(0);
    let lines = vec!["1".to_string()];
    let report = e.step(&mut round, ROUND_DURATION_MS, &lines);
    assert!(report.actions.is_empty());
    assert!(report.enemy.is_none());
    assert!(!round.enemy_acted);
    assert!(!round.player_used_card);
    assert_eq!(round.last_tick_ms, ROUND_DURATION_MS);
    assert!(e.player().card(0).is_ready());
    assert_eq!(e.enemy().hp(), 3);
    assert_eq!(e.player().hp(), 3);
}

#[test]
fn new_game_names() {
    let e = GameEngine::new();
    assert_eq!(e.player().card(0).name, "攻击");
    assert_eq!(e.player().card(1).name, "防御");
    assert_eq!(e.player().skill(0).name, "紧急救治");
    assert_eq!(e.player().skill(1).name, "快速循环");
    assert_eq!(e.enemy_card().name, "攻击");
}

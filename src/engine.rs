use vstd::prelude::*;

use crate::card::{create_attack_card, create_defense_card, Card, CardEffect, CardState};
use crate::chance::random_in_range;
use crate::combat::{strike, Combatant, Outcome, VitalsState};
use crate::cooldown::{ceil_seconds, CooldownState};
use crate::enemy::Slime;
use crate::input::{line_choice, parse_line};
use crate::player::{cards_ticked, skills_ticked, Player, PlayerState};
use crate::skill::{create_emergency_heal, create_fast_cycle, SkillEffect};

verus! {

/// Length of one round.
pub const ROUND_DURATION_MS: u64 = 5_000;

/// Longest pause between two iterations of a round's loop.
pub const LOOP_TICK_MS: u64 = 100;

/// Lockout of the player's cards in the very first round.
pub const PLAYER_INITIAL_CARD_COOLDOWN_MS: u64 = 1_000;

/// Lockout of the opponent's card in the very first round.
pub const ENEMY_INITIAL_CARD_COOLDOWN_MS: u64 = 2_000;

/// The closing part of a round in which the opponent never acts.
pub const ENEMY_ACTION_MARGIN_MS: u64 = 300;

/// The window in which the opponent may act this round, as the earliest and
/// the latest instant: none when its card is not ready before the round
/// ends; only the earliest when that falls in the closing margin.
pub open spec fn enemy_window(round_start: nat, round_end: nat, remaining_ms: nat) -> Option<(nat, nat)> {
    let earliest = round_start + remaining_ms;
    if earliest >= round_end {
        None
    } else if earliest + ENEMY_ACTION_MARGIN_MS >= round_end {
        Some((earliest, earliest))
    } else {
        Some((earliest, (round_end - ENEMY_ACTION_MARGIN_MS) as nat))
    }
}

/// The earliest and latest instant at which the opponent may act in the round
/// from `round_start` to `round_end`, given what is left of its card's
/// cooldown; none when the card is not ready before the round ends.
pub fn enemy_action_window(round_start: u64, round_end: u64, remaining_ms: u64) -> (r: Option<(u64, u64)>)
    ensures
        r matches Some((e, l)) ==> enemy_window(round_start as nat, round_end as nat, remaining_ms as nat)
            == Some((e as nat, l as nat)),
        r is None ==> enemy_window(round_start as nat, round_end as nat, remaining_ms as nat) is None,
{
    if round_start >= round_end || remaining_ms >= round_end - round_start {
        return None;
    }
    let earliest = round_start + remaining_ms;
    if round_end - earliest <= ENEMY_ACTION_MARGIN_MS {
        Some((earliest, earliest))
    } else {
        Some((earliest, round_end - ENEMY_ACTION_MARGIN_MS))
    }
}

/// What holds of every instant the planner may return for the round from
/// `round_start` to `round_end` when `remaining_ms` of the opponent's card
/// cooldown are left.
pub open spec fn is_valid_plan(round_start: nat, round_end: nat, remaining_ms: nat, plan: Option<u64>) -> bool {
    &&& plan is None <==> round_start + remaining_ms >= round_end
    &&& plan matches Some(t) ==> (
        enemy_window(round_start, round_end, remaining_ms) matches Some((e, l)) && e <= t <= l
    )
    &&& plan matches Some(t) ==> round_start + remaining_ms <= t < round_end
    &&& plan matches Some(t) ==> (round_start + remaining_ms + ENEMY_ACTION_MARGIN_MS <= round_end
        ==> t + ENEMY_ACTION_MARGIN_MS <= round_end)
    &&& plan matches Some(t) ==> (round_start + remaining_ms + ENEMY_ACTION_MARGIN_MS >= round_end
        ==> t == round_start + remaining_ms)
}

/// Plans the instant at which the opponent acts in a round: never before its
/// card's cooldown has run out, never in the closing margin of the round
/// unless the cooldown itself ends there, and at a uniformly random point of
/// the window otherwise; none when the card is not ready before the round
/// ends.
pub fn plan_enemy_action(round_start: u64, round_end: u64, remaining_ms: u64) -> (r: Option<u64>)
    ensures
        is_valid_plan(round_start as nat, round_end as nat, remaining_ms as nat, r),
{
    match enemy_action_window(round_start, round_end, remaining_ms) {
        None => None,
        Some((earliest, latest)) => {
            if earliest == latest {
                Some(earliest)
            } else {
                Some(random_in_range(earliest, latest))
            }
        },
    }
}

/// What an effect did when it was applied.
#[derive(Debug, Clone, Copy, PartialEq, Eq, Structural)]
pub enum EffectReport {
    /// A damage effect hit, or was dodged by, the other side.
    Hit(Outcome),
    /// This much shield was added to the one who acted.
    Shielded(i32),
    /// This much health was restored (zero when already full).
    Healed(i32),
    /// Every card of the player had its cooldown shortened by this much.
    CooldownsReduced(u64),
}

/// The result of one line of player input.
#[derive(Debug, Clone, Copy, PartialEq, Eq, Structural)]
pub enum PlayerAction {
    /// The player has neither cards nor skills.
    NoActions,
    /// The line is not a number from 1 to `total`.
    Invalid { total: usize },
    /// A card was chosen, but one was already played this round.
    CardAlreadyUsed,
    /// The chosen card is still cooling down.
    CardNotReady { index: usize, remaining_secs: u64 },
    /// The chosen skill is still cooling down.
    SkillNotReady { index: usize, remaining_secs: u64 },
    /// The card at `index` of the hand was played.
    CardPlayed { index: usize, report: EffectReport },
    /// The skill at `index` was used.
    SkillUsed { index: usize, report: EffectReport },
}

/// The abstract state of the game.
pub struct EngineState {
    pub player: PlayerState,
    pub enemy: VitalsState,
    pub enemy_name: Seq<char>,
    pub round: nat,
    /// The opponent's single card.
    pub enemy_card: CardState,
}

impl EngineState {
    pub open spec fn wf(self) -> bool {
        &&& self.player.wf()
        &&& self.enemy.wf()
        &&& self.enemy_card.wf()
        &&& self.round <= u32::MAX
    }

    pub open spec fn both_alive(self) -> bool {
        self.player.vitals.is_alive() && self.enemy.is_alive()
    }

    /// Every cooldown of both sides advanced by `elapsed` milliseconds.
    pub open spec fn ticked(self, elapsed: nat) -> EngineState {
        EngineState {
            player: PlayerState {
                cards: cards_ticked(self.player.cards, elapsed),
                skills: skills_ticked(self.player.skills, elapsed),
                ..self.player
            },
            enemy_card: self.enemy_card.ticked(elapsed),
            ..self
        }
    }

    /// Both shields dropped and the round counter advanced.
    pub open spec fn settled(self) -> EngineState {
        EngineState {
            player: PlayerState { vitals: self.player.vitals.cleared(), ..self.player },
            enemy: self.enemy.cleared(),
            round: self.round + 1,
            ..self
        }
    }
}

/// A hit of `amount` on a target that cannot dodge.
pub open spec fn hit_outcome(target: VitalsState, amount: int) -> Outcome {
    Outcome {
        dodged: false,
        absorbed: target.absorbed(amount) as i32,
        dealt: (amount - target.absorbed(amount)) as i32,
        healed: 0,
    }
}

/// The player plays the card at `i`: its cooldown starts, then its effect
/// applies.
pub open spec fn play_card(s: EngineState, i: int) -> (EngineState, EffectReport) {
    let card = s.player.cards[i];
    let p = PlayerState { cards: s.player.cards.update(i, card.triggered()), ..s.player };
    match card.effect {
        CardEffect::Damage(n) => (
            EngineState { player: p, enemy: s.enemy.damaged(n as int), ..s },
            EffectReport::Hit(hit_outcome(s.enemy, n as int)),
        ),
        CardEffect::Shield(n) => (
            EngineState { player: PlayerState { vitals: p.vitals.shielded(n as int), ..p }, ..s },
            EffectReport::Shielded(n),
        ),
    }
}

/// The player uses the skill at `k`: its effect applies, and its cooldown
/// starts.
pub open spec fn use_skill(s: EngineState, k: int) -> (EngineState, EffectReport) {
    let skill = s.player.skills[k];
    let p = PlayerState { skills: s.player.skills.update(k, skill.triggered()), ..s.player };
    match skill.effect {
        SkillEffect::Heal(n) => {
            let v = p.vitals.healed(n as int);
            (
                EngineState { player: PlayerState { vitals: v, ..p }, ..s },
                EffectReport::Healed((v.hp - p.vitals.hp) as i32),
            )
        },
        SkillEffect::ReduceAllCardCooldownMs(ms) => (
            EngineState { player: PlayerState { cards: cards_ticked(p.cards, ms as nat), ..p }, ..s },
            EffectReport::CooldownsReduced(ms),
        ),
    }
}

/// What a chosen 1-based index does: it selects, in order, one of the cards
/// and then one of the skills. A card is refused when one was already played
/// this round or when it is cooling down; a skill only when it is cooling
/// down. Every refusal leaves the state as it was.
pub open spec fn player_action(s: EngineState, used_card: bool, choice: Option<nat>) -> (PlayerAction, EngineState) {
    let n_cards = s.player.cards.len();
    let total = n_cards + s.player.skills.len();
    if total == 0 {
        (PlayerAction::NoActions, s)
    } else if !(choice matches Some(c) && 1 <= c <= total) {
        (PlayerAction::Invalid { total: total as usize }, s)
    } else {
        let idx = choice->0 - 1;
        if idx < n_cards {
            let card = s.player.cards[idx];
            if used_card {
                (PlayerAction::CardAlreadyUsed, s)
            } else if !card.is_ready() {
                (
                    PlayerAction::CardNotReady {
                        index: idx as usize,
                        remaining_secs: ceil_seconds(card.timer.remaining_ms) as u64,
                    },
                    s,
                )
            } else {
                let (s2, report) = play_card(s, idx);
                (PlayerAction::CardPlayed { index: idx as usize, report }, s2)
            }
        } else {
            let k = idx - n_cards;
            let skill = s.player.skills[k];
            if !skill.is_ready() {
                (
                    PlayerAction::SkillNotReady {
                        index: k as usize,
                        remaining_secs: ceil_seconds(skill.timer.remaining_ms) as u64,
                    },
                    s,
                )
            } else {
                let (s2, report) = use_skill(s, k);
                (PlayerAction::SkillUsed { index: k as usize, report }, s2)
            }
        }
    }
}

/// The opponent plays its card, whatever its cooldown: the cooldown starts,
/// then the effect applies.
pub open spec fn enemy_plays(s: EngineState) -> (EngineState, EffectReport) {
    let s1 = EngineState { enemy_card: s.enemy_card.triggered(), ..s };
    match s.enemy_card.effect {
        CardEffect::Damage(n) => (
            EngineState {
                player: PlayerState { vitals: s.player.vitals.damaged(n as int), ..s.player },
                ..s1
            },
            EffectReport::Hit(hit_outcome(s.player.vitals, n as int)),
        ),
        CardEffect::Shield(n) => (
            EngineState { enemy: s.enemy.shielded(n as int), ..s1 },
            EffectReport::Shielded(n),
        ),
    }
}

/// One round in progress: its window of time, the planned instant of the
/// opponent's action, and what each side has done so far.
#[derive(Debug, Clone, Copy, PartialEq, Eq, Structural)]
pub struct Round {
    /// The round counter when the round began.
    pub index: u32,
    pub start_ms: u64,
    pub end_ms: u64,
    /// Up to when cooldowns have been advanced.
    pub last_tick_ms: u64,
    /// When the opponent is allowed to act, if at all.
    pub enemy_action_at: Option<u64>,
    pub player_used_card: bool,
    pub player_acted: bool,
    pub enemy_acted: bool,
    /// The opponent's card was not ready at its planned instant, so it
    /// gave up acting this round.
    pub enemy_forfeited: bool,
}

/// The round flags after the player's action `a`.
pub open spec fn flags_after(r: Round, a: PlayerAction) -> Round {
    Round {
        player_used_card: r.player_used_card || a is CardPlayed,
        player_acted: r.player_acted || a is CardPlayed || a is SkillUsed,
        ..r
    }
}

/// Cooldowns advanced up to `now`, when time has passed since the last tick.
pub open spec fn clock_advanced(s: EngineState, r: Round, now: nat) -> (EngineState, Round) {
    if now > r.last_tick_ms {
        (s.ticked((now - r.last_tick_ms) as nat), Round { last_tick_ms: now as u64, ..r })
    } else {
        (s, r)
    }
}

/// The lines of input handled in order, each against the state the previous
/// ones left.
pub open spec fn inputs_handled(s: EngineState, r: Round, lines: Seq<Seq<char>>) -> (EngineState, Round, Seq<PlayerAction>)
    decreases lines.len(),
{
    if lines.len() == 0 {
        (s, r, Seq::empty())
    } else {
        let (s1, r1, actions) = inputs_handled(s, r, lines.drop_last());
        let (a, s2) = player_action(s1, r1.player_used_card, line_choice(lines.last()));
        (s2, flags_after(r1, a), actions.push(a))
    }
}

/// The opponent's planned instant has come: it has neither acted nor given
/// up this round, it is alive, and its planned instant is not after `now`.
pub open spec fn enemy_turn_come(s: EngineState, r: Round, now: nat) -> bool {
    &&& !r.enemy_acted
    &&& !r.enemy_forfeited
    &&& s.enemy.is_alive()
    &&& r.enemy_action_at matches Some(t) && now >= t
}

/// The opponent acts now: its planned instant has come and its card is
/// ready.
pub open spec fn enemy_due(s: EngineState, r: Round, now: nat) -> bool {
    enemy_turn_come(s, r, now) && s.enemy_card.is_ready()
}

/// The opponent's part of one iteration of a round: it acts when due; when
/// its planned instant has come but its card is not ready, it forfeits the
/// round instead of retrying.
pub open spec fn enemy_turn(s: EngineState, r: Round, now: nat) -> (EngineState, Round, Option<EffectReport>) {
    if enemy_due(s, r, now) {
        let (s2, report) = enemy_plays(s);
        (s2, Round { enemy_acted: true, ..r }, Some(report))
    } else if enemy_turn_come(s, r, now) {
        (s, Round { enemy_forfeited: true, ..r }, None)
    } else {
        (s, r, None)
    }
}

/// One iteration of a round at `now`. Before the round's end, cooldowns
/// advance first, then every line of input is handled in order, then the
/// opponent may act. At or after the end only the cooldowns advance: no
/// input is handled and the opponent does not act.
pub open spec fn round_step(s: EngineState, r: Round, now: nat, lines: Seq<Seq<char>>) -> (
    EngineState,
    Round,
    Seq<PlayerAction>,
    Option<EffectReport>,
) {
    let (s1, r1) = clock_advanced(s, r, now);
    if now >= r.end_ms {
        (s1, r1, Seq::empty(), None)
    } else {
        let (s2, r2, actions) = inputs_handled(s1, r1, lines);
        let (s3, r3, enemy) = enemy_turn(s2, r2, now);
        (s3, r3, actions, enemy)
    }
}

/// What the round loop does after an iteration.
#[derive(Debug, Clone, Copy, PartialEq, Eq, Structural)]
pub enum RoundStep {
    /// A side has fallen: the battle is over.
    Finished,
    /// The round's time is up.
    RoundOver,
    /// Wait this many milliseconds, then iterate again.
    Wait(u64),
}

/// What one iteration of a round produced.
pub struct StepReport {
    /// The result of each line of input, in order.
    pub actions: Vec<PlayerAction>,
    /// What the opponent's action did, if it acted.
    pub enemy: Option<EffectReport>,
}

/// The game: the player, one opponent with its single card, and the round
/// counter.
pub struct GameEngine {
    player: Player,
    enemy: Slime,
    round: u32,
    enemy_card: Card,
}

impl View for GameEngine {
    type V = EngineState;

    closed spec fn view(&self) -> EngineState {
        EngineState {
            player: self.player@,
            enemy: self.enemy.vitals(),
            enemy_name: self.enemy.name_text(),
            round: self.round as nat,
            enemy_card: self.enemy_card@,
        }
    }
}

impl GameEngine {
    /// The engine's internal invariant: the state is well formed and the
    /// opponent never dodges.
    pub closed spec fn wf(&self) -> bool {
        self@.wf() && self.enemy.dodge_percent() == 0
    }

    /// A new game: the hero with an attack and a defense card and two skills
    /// against a slime with one attack card, in round 1. The first round
    /// staggers the cards: the player's are locked for one second, the
    /// opponent's for two.
    pub fn new() -> (r: GameEngine)
        ensures
            r.wf(),
            r@.round == 1,
            r@.player.name == "勇者"@,
            r@.player.vitals == (VitalsState { hp: 3, max_hp: 3, shield: 0 }),
            r@.player.cards.len() == 2,
            r@.player.cards[0].name == "攻击"@,
            r@.player.cards[0].effect == CardEffect::Damage(1),
            r@.player.cards[0].timer == (CooldownState { total_ms: 3000, remaining_ms: PLAYER_INITIAL_CARD_COOLDOWN_MS as nat }),
            r@.player.cards[1].name == "防御"@,
            r@.player.cards[1].effect == CardEffect::Shield(1),
            r@.player.cards[1].timer == (CooldownState { total_ms: 3000, remaining_ms: PLAYER_INITIAL_CARD_COOLDOWN_MS as nat }),
            r@.player.skills.len() == 2,
            r@.player.skills[0].name == "紧急救治"@,
            r@.player.skills[0].effect == SkillEffect::Heal(1),
            r@.player.skills[0].timer == (CooldownState { total_ms: 20_000, remaining_ms: 0 }),
            r@.player.skills[1].name == "快速循环"@,
            r@.player.skills[1].effect == SkillEffect::ReduceAllCardCooldownMs(1_000),
            r@.player.skills[1].timer == (CooldownState { total_ms: 20_000, remaining_ms: 5_000 }),
            r@.enemy_name == "史莱姆"@,
            r@.enemy == (VitalsState { hp: 3, max_hp: 3, shield: 0 }),
            r@.enemy_card.name == "攻击"@,
            r@.enemy_card.effect == CardEffect::Damage(1),
            r@.enemy_card.timer == (CooldownState { total_ms: 3000, remaining_ms: ENEMY_INITIAL_CARD_COOLDOWN_MS as nat }),
    {
        let mut player = Player::new("勇者", 3);
        let mut attack = create_attack_card();
        attack.set_initial_cooldown_ms(PLAYER_INITIAL_CARD_COOLDOWN_MS);
        player.add_card(attack);
        let mut defense = create_defense_card();
        defense.set_initial_cooldown_ms(PLAYER_INITIAL_CARD_COOLDOWN_MS);
        player.add_card(defense);
        player.equip_skill(create_emergency_heal());
        player.equip_skill(create_fast_cycle());

        let enemy = Slime::new("史莱姆", 3);
        let mut enemy_card = create_attack_card();
        enemy_card.set_initial_cooldown_ms(ENEMY_INITIAL_CARD_COOLDOWN_MS);

        GameEngine { player, enemy, round: 1, enemy_card }
    }

    pub fn player(&self) -> (r: &Player)
        ensures
            r@ == self@.player,
    {
        &self.player
    }

    pub fn enemy(&self) -> (r: &Slime)
        ensures
            r.vitals() == self@.enemy,
            r.name_text() == self@.enemy_name,
    {
        &self.enemy
    }

    pub fn enemy_card(&self) -> (r: &Card)
        ensures
            r@ == self@.enemy_card,
    {
        &self.enemy_card
    }

    pub fn round(&self) -> (r: u32)
        ensures
            r == self@.round,
    {
        self.round
    }

    /// Whether both sides are still standing.
    pub fn both_alive(&self) -> (r: bool)
        ensures
            r == self@.both_alive(),
    {
        self.player.is_alive() && self.enemy.is_alive()
    }

    /// Advances every cooldown of both sides by the elapsed time; nothing
    /// changes when no time has passed.
    pub fn tick_cooldowns(&mut self, elapsed_ms: u64)
        requires
            old(self).wf(),
        ensures
            final(self).wf(),
            final(self)@ == old(self)@.ticked(elapsed_ms as nat),
            elapsed_ms == 0 ==> final(self)@ == old(self)@,
    {
        if elapsed_ms == 0 {
            assert(old(self)@.player.cards =~= cards_ticked(old(self)@.player.cards, 0));
            assert(old(self)@.player.skills =~= skills_ticked(old(self)@.player.skills, 0));
            return;
        }
        self.player.tick_card_cooldowns_ms(elapsed_ms);
        self.enemy_card.tick_cooldown_ms(elapsed_ms);
        self.player.tick_skill_cooldowns_ms(elapsed_ms);
    }

    /// Settles a round that both sides survived: both shields drop and the
    /// round counter moves on.
    pub fn finish_round(&mut self)
        requires
            old(self).wf(),
            old(self)@.round < u32::MAX,
        ensures
            final(self).wf(),
            final(self)@ == old(self)@.settled(),
    {
        self.player.clear_shield();
        self.enemy.clear_shield();
        self.round = self.round + 1;
    }

    /// Carries out the player's choice of a 1-based index into the hand
    /// followed by the skills. `player_used_card` tells whether a card was
    /// already played this round.
    pub fn execute_choice(&mut self, choice: Option<usize>, player_used_card: bool) -> (r: PlayerAction)
        requires
            old(self).wf(),
        ensures
            final(self).wf(),
            (r, final(self)@) == player_action(
                old(self)@,
                player_used_card,
                match choice {
                    Some(c) => Some(c as nat),
                    None => None,
                },
            ),
    {
        let ghost c = match choice {
            Some(c) => Some(c as nat),
            None => None,
        };
        let n_cards = self.player.card_count();
        let n_skills = self.player.skill_count();
        if n_cards == 0 && n_skills == 0 {
            return PlayerAction::NoActions;
        }
        let total = n_cards + n_skills;
        let idx = match choice {
            Some(n) => {
                if n < 1 || n > total {
                    return PlayerAction::Invalid { total };
                }
                n - 1
            },
            None => {
                return PlayerAction::Invalid { total };
            },
        };
        if idx < n_cards {
            if player_used_card {
                return PlayerAction::CardAlreadyUsed;
            }
            let card = self.player.card(idx);
            if !card.is_ready() {
                return PlayerAction::CardNotReady { index: idx, remaining_secs: card.remaining_cooldown_secs() };
            }
            let effect = card.effect;
            self.player.trigger_card(idx);
            let report = match effect {
                CardEffect::Damage(n) => {
                    let ghost before = self.enemy.vitals();
                    let o = strike(&mut self.enemy, n);
                    assert(o == hit_outcome(before, n as int));
                    EffectReport::Hit(o)
                },
                CardEffect::Shield(n) => {
                    self.player.add_shield(n);
                    EffectReport::Shielded(n)
                },
            };
            return PlayerAction::CardPlayed { index: idx, report };
        }
        let k = idx - n_cards;
        let skill = self.player.skill(k);
        if !skill.is_ready() {
            return PlayerAction::SkillNotReady { index: k, remaining_secs: skill.remaining_cooldown_secs() };
        }
        let effect = skill.effect;
        let report = match effect {
            SkillEffect::Heal(n) => {
                let healed = self.player.heal(n);
                EffectReport::Healed(healed)
            },
            SkillEffect::ReduceAllCardCooldownMs(ms) => {
                self.player.reduce_card_cooldowns_ms(ms);
                EffectReport::CooldownsReduced(ms)
            },
        };
        self.player.trigger_skill(k);
        PlayerAction::SkillUsed { index: k, report }
    }

    /// Carries out one line of player input: a 1-based index into the hand
    /// followed by the skills, surrounding white space ignored.
    pub fn try_execute_player_action(&mut self, line: &str, player_used_card: bool) -> (r: PlayerAction)
        requires
            old(self).wf(),
        ensures
            final(self).wf(),
            (r, final(self)@) == player_action(old(self)@, player_used_card, line_choice(line@)),
    {
        let choice = parse_line(line);
        self.execute_choice(choice, player_used_card)
    }

    /// The opponent plays its card if it is ready; nothing happens otherwise.
    pub fn execute_enemy_action(&mut self) -> (r: Option<EffectReport>)
        requires
            old(self).wf(),
        ensures
            final(self).wf(),
            !old(self)@.enemy_card.is_ready() ==> r is None && final(self)@ == old(self)@,
            old(self)@.enemy_card.is_ready() ==> (final(self)@, r->0) == enemy_plays(old(self)@) && r is Some,
    {
        if !self.enemy_card.is_ready() {
            return None;
        }
        let effect = self.enemy_card.effect;
        self.enemy_card.trigger_cooldown();
        let report = match effect {
            CardEffect::Damage(n) => {
                let ghost before = self.player@.vitals;
                let o = strike(&mut self.player, n);
                assert(o == hit_outcome(before, n as int));
                EffectReport::Hit(o)
            },
            CardEffect::Shield(n) => {
                self.enemy.add_shield(n);
                EffectReport::Shielded(n)
            },
        };
        Some(report)
    }

    /// The instant at which the opponent acts in the round from
    /// `round_start` to `round_end`, planned from its card's cooldown.
    pub fn plan_enemy_action_time(&self, round_start: u64, round_end: u64) -> (r: Option<u64>)
        ensures
            is_valid_plan(round_start as nat, round_end as nat, self@.enemy_card.timer.remaining_ms, r),
    {
        plan_enemy_action(round_start, round_end, self.enemy_card.remaining_cooldown_ms())
    }

    /// Starts a round at `now_ms`: it lasts one round duration, nothing has
    /// happened in it yet, and the opponent's action is planned.
    pub fn begin_round(&self, now_ms: u64) -> (r: Round)
        requires
            now_ms <= u64::MAX - ROUND_DURATION_MS,
        ensures
            r.index == self@.round,
            r.start_ms == now_ms,
            r.end_ms == now_ms + ROUND_DURATION_MS,
            r.last_tick_ms == now_ms,
            !r.player_used_card && !r.player_acted && !r.enemy_acted && !r.enemy_forfeited,
            is_valid_plan(r.start_ms as nat, r.end_ms as nat, self@.enemy_card.timer.remaining_ms, r.enemy_action_at),
    {
        let end_ms = now_ms + ROUND_DURATION_MS;
        Round {
            index: self.round,
            start_ms: now_ms,
            end_ms,
            last_tick_ms: now_ms,
            enemy_action_at: self.plan_enemy_action_time(now_ms, end_ms),
            player_used_card: false,
            player_acted: false,
            enemy_acted: false,
            enemy_forfeited: false,
        }
    }

    /// Advances every cooldown by the time since the round's last tick, if
    /// any has passed. Also flushes the last stretch of a round before it is
    /// settled.
    pub fn advance_clock(&mut self, round: &mut Round, now_ms: u64)
        requires
            old(self).wf(),
        ensures
            final(self).wf(),
            (final(self)@, *final(round)) == clock_advanced(old(self)@, *old(round), now_ms as nat),
    {
        if now_ms > round.last_tick_ms {
            self.tick_cooldowns(now_ms - round.last_tick_ms);
            round.last_tick_ms = now_ms;
        }
    }

    /// Handles one line of player input and records it in the round.
    pub fn handle_input(&mut self, round: &mut Round, line: &str) -> (r: PlayerAction)
        requires
            old(self).wf(),
        ensures
            final(self).wf(),
            (r, final(self)@) == player_action(old(self)@, old(round).player_used_card, line_choice(line@)),
            *final(round) == flags_after(*old(round), r),
    {
        let r = self.try_execute_player_action(line, round.player_used_card);
        if let PlayerAction::CardPlayed { .. } = r {
            round.player_used_card = true;
            round.player_acted = true;
        } else if let PlayerAction::SkillUsed { .. } = r {
            round.player_acted = true;
        }
        r
    }

    /// Lets the opponent act if it is due; it acts at most once per round,
    /// and forfeits the round when its card is not ready at the planned
    /// instant.
    pub fn run_enemy_turn(&mut self, round: &mut Round, now_ms: u64) -> (r: Option<EffectReport>)
        requires
            old(self).wf(),
        ensures
            final(self).wf(),
            (final(self)@, *final(round), r) == enemy_turn(old(self)@, *old(round), now_ms as nat),
    {
        if round.enemy_acted || round.enemy_forfeited || !self.enemy.is_alive() {
            return None;
        }
        match round.enemy_action_at {
            None => None,
            Some(t) => {
                if now_ms < t {
                    return None;
                }
                if !self.enemy_card.is_ready() {
                    round.enemy_forfeited = true;
                    return None;
                }
                let report = self.execute_enemy_action();
                round.enemy_acted = true;
                report
            },
        }
    }

    /// One iteration of a round at `now_ms`: cooldowns advance, then, while
    /// the round has not ended, every line of input that arrived is handled
    /// in order and the opponent may act. At or after the round's end the
    /// lines are left unhandled, for the caller to keep for the next round.
    pub fn step(&mut self, round: &mut Round, now_ms: u64, lines: &Vec<String>) -> (r: StepReport)
        requires
            old(self).wf(),
        ensures
            final(self).wf(),
            (final(self)@, *final(round), r.actions@, r.enemy) == round_step(
                old(self)@,
                *old(round),
                now_ms as nat,
                lines@.map_values(|l: String| l@),
            ),
    {
        let ghost texts = lines@.map_values(|l: String| l@);
        self.advance_clock(round, now_ms);
        if now_ms >= round.end_ms {
            return StepReport { actions: Vec::new(), enemy: None };
        }
        let ghost s1 = self@;
        let ghost r1 = *round;
        let mut actions: Vec<PlayerAction> = Vec::new();
        let mut i: usize = 0;
        while i < lines.len()
            invariant
                self.wf(),
                i <= lines.len(),
                texts == lines@.map_values(|l: String| l@),
                (self@, *round, actions@) == inputs_handled(s1, r1, texts.take(i as int)),
            decreases lines.len() - i,
        {
            assert(texts.take(i + 1).drop_last() =~= texts.take(i as int));
            let a = self.handle_input(round, lines[i].as_str());
            actions.push(a);
            i += 1;
        }
        assert(texts.take(lines.len() as int) =~= texts);
        let enemy = self.run_enemy_turn(round, now_ms);
        StepReport { actions, enemy }
    }

    /// What the round loop does next at `now_ms`: stop when a side has
    /// fallen, end the round when its time is up, and otherwise wait for the
    /// loop's tick, but never past the end of the round.
    pub fn next_step(&self, round: &Round, now_ms: u64) -> (r: RoundStep)
        ensures
            !self@.both_alive() ==> r == RoundStep::Finished,
            self@.both_alive() && now_ms >= round.end_ms ==> r == RoundStep::RoundOver,
            self@.both_alive() && now_ms < round.end_ms ==> r == RoundStep::Wait(
                if round.end_ms - now_ms < LOOP_TICK_MS { (round.end_ms - now_ms) as u64 } else { LOOP_TICK_MS },
            ),
    {
        if !self.both_alive() {
            return RoundStep::Finished;
        }
        if now_ms >= round.end_ms {
            return RoundStep::RoundOver;
        }
        let left = round.end_ms - now_ms;
        RoundStep::Wait(if left < LOOP_TICK_MS { left } else { LOOP_TICK_MS })
    }

    /// Closes a round at `now_ms`: the last stretch of time is applied to
    /// the cooldowns, and when both sides are still standing the round is
    /// settled. Returns whether the battle goes on.
    pub fn end_round(&mut self, round: &mut Round, now_ms: u64) -> (goes_on: bool)
        requires
            old(self).wf(),
            old(self)@.round < u32::MAX,
        ensures
            final(self).wf(),
            goes_on == clock_advanced(old(self)@, *old(round), now_ms as nat).0.both_alive(),
            *final(round) == clock_advanced(old(self)@, *old(round), now_ms as nat).1,
            goes_on ==> final(self)@ == clock_advanced(old(self)@, *old(round), now_ms as nat).0.settled(),
            !goes_on ==> final(self)@ == clock_advanced(old(self)@, *old(round), now_ms as nat).0,
    {
        self.advance_clock(round, now_ms);
        if !self.both_alive() {
            return false;
        }
        self.finish_round();
        true
    }
}

/// How many of `actions` played a card.
pub open spec fn cards_played(actions: Seq<PlayerAction>) -> nat
    decreases actions.len(),
{
    if actions.len() == 0 {
        0
    } else {
        cards_played(actions.drop_last()) + if actions.last() is CardPlayed { 1nat } else { 0nat }
    }
}

/// Once a card has been played in a round, no choice plays another; and
/// whether a choice uses a skill, and what that does, does not depend on
/// whether a card was played.
pub proof fn lemma_card_budget(s: EngineState, choice: Option<nat>)
    ensures
        !(player_action(s, true, choice).0 is CardPlayed),
        player_action(s, true, choice).0 is SkillUsed <==> player_action(s, false, choice).0 is SkillUsed,
        player_action(s, false, choice).0 is SkillUsed ==> player_action(s, true, choice) == player_action(
            s,
            false,
            choice,
        ),
{
}

/// Among any lines of input handled in one round, at most one plays a card,
/// and none does once a card was already played; the round remembers
/// whether a card was played.
pub proof fn lemma_one_card_per_round(s: EngineState, r: Round, lines: Seq<Seq<char>>)
    ensures
        cards_played(inputs_handled(s, r, lines).2) <= 1,
        r.player_used_card ==> cards_played(inputs_handled(s, r, lines).2) == 0,
        inputs_handled(s, r, lines).1.player_used_card == (r.player_used_card || cards_played(
            inputs_handled(s, r, lines).2,
        ) == 1),
    decreases lines.len(),
{
    if lines.len() > 0 {
        lemma_one_card_per_round(s, r, lines.drop_last());
        let (s1, r1, actions) = inputs_handled(s, r, lines.drop_last());
        lemma_card_budget(s1, line_choice(lines.last()));
        let (a, s2) = player_action(s1, r1.player_used_card, line_choice(lines.last()));
        assert(inputs_handled(s, r, lines).2 == actions.push(a));
        assert(actions.push(a).drop_last() =~= actions);
    }
}

/// An iteration of a round plays at most one card, none when a card was
/// already played in the round, and the round keeps remembering a played
/// card; so over all the iterations of a round at most one card is played.
pub proof fn lemma_step_keeps_card_budget(s: EngineState, r: Round, now: nat, lines: Seq<Seq<char>>)
    ensures
        cards_played(round_step(s, r, now, lines).2) <= 1,
        r.player_used_card ==> cards_played(round_step(s, r, now, lines).2) == 0,
        round_step(s, r, now, lines).1.player_used_card == (r.player_used_card || cards_played(
            round_step(s, r, now, lines).2,
        ) == 1),
{
    let (s1, r1) = clock_advanced(s, r, now);
    lemma_one_card_per_round(s1, r1, lines);
}

} // verus!

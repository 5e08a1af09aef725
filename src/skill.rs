use vstd::prelude::*;
use vstd::string::StringExecFns;

use crate::card::card_line;
use crate::cooldown::{ceil_seconds, Cooldown, CooldownState};
use crate::text::{decimal, push_decimal};

verus! {

/// Full cooldown of the emergency heal skill.
pub const EMERGENCY_HEAL_COOLDOWN_MS: u64 = 20_000;

/// Full cooldown of the fast cycle skill: four rounds.
pub const FAST_CYCLE_COOLDOWN_MS: u64 = 20_000;

/// Initial lockout of the fast cycle skill: one round.
pub const FAST_CYCLE_INITIAL_LOCKOUT_MS: u64 = 5_000;

/// How much the fast cycle skill shortens every card's cooldown.
pub const FAST_CYCLE_REDUCTION_MS: u64 = 1_000;

/// The effect a skill produces when activated.
#[derive(Debug, Clone, Copy, PartialEq, Eq, Structural)]
pub enum SkillEffect {
    /// Restores this much health to the one who uses it.
    Heal(i32),
    /// Shortens the remaining cooldown of each of the user's cards.
    ReduceAllCardCooldownMs(u64),
}

impl SkillEffect {
    /// Healing is never negative.
    pub open spec fn is_valid(self) -> bool {
        match self {
            SkillEffect::Heal(n) => n >= 0,
            SkillEffect::ReduceAllCardCooldownMs(_) => true,
        }
    }
}

/// An equippable skill with a time-based cooldown. Unlike cards, skills are
/// not limited to one use per round: only their own cooldown gates them.
#[derive(Debug, Clone)]
pub struct Skill {
    pub name: String,
    pub description: String,
    pub effect: SkillEffect,
    pub cooldown: Cooldown,
}

/// The abstract state of a skill.
pub struct SkillState {
    pub name: Seq<char>,
    pub description: Seq<char>,
    pub effect: SkillEffect,
    pub timer: CooldownState,
}

impl SkillState {
    pub open spec fn wf(self) -> bool {
        self.effect.is_valid()
    }

    pub open spec fn is_ready(self) -> bool {
        self.timer.is_ready()
    }

    pub open spec fn with_timer(self, timer: CooldownState) -> SkillState {
        SkillState { timer, ..self }
    }

    /// The skill after `elapsed` milliseconds of cooldown have passed.
    pub open spec fn ticked(self, elapsed: nat) -> SkillState {
        self.with_timer(self.timer.ticked(elapsed))
    }

    /// The skill right after it was used.
    pub open spec fn triggered(self) -> SkillState {
        self.with_timer(self.timer.triggered())
    }
}

impl View for Skill {
    type V = SkillState;

    open spec fn view(&self) -> SkillState {
        SkillState {
            name: self.name@,
            description: self.description@,
            effect: self.effect,
            timer: self.cooldown@,
        }
    }
}

/// How a skill is listed: like a card, then whether it is ready or how many
/// seconds of cooldown are left.
pub open spec fn skill_line(name: Seq<char>, description: Seq<char>, timer: CooldownState) -> Seq<char> {
    if timer.is_ready() {
        card_line(name, description) + " [可用]"@
    } else {
        card_line(name, description) + " [冷却 "@ + decimal(ceil_seconds(timer.remaining_ms)) + " 秒]"@
    }
}

impl Skill {
    /// A skill that is ready at once, with a full cooldown of `cooldown_ms`.
    pub fn new(name: &str, description: &str, effect: SkillEffect, cooldown_ms: u64) -> (r: Skill)
        requires
            effect.is_valid(),
        ensures
            r.name@ == name@,
            r.description@ == description@,
            r.effect == effect,
            r@.timer == (CooldownState { total_ms: cooldown_ms as nat, remaining_ms: 0 }),
            r@.wf(),
    {
        Skill {
            name: String::from_str(name),
            description: String::from_str(description),
            effect,
            cooldown: Cooldown::new(cooldown_ms),
        }
    }

    /// The same skill, first usable after `initial_cooldown_ms`.
    pub fn with_initial_cooldown_ms(self, initial_cooldown_ms: u64) -> (r: Skill)
        ensures
            r@ == self@.with_timer(
                CooldownState { total_ms: self@.timer.total_ms, remaining_ms: initial_cooldown_ms as nat },
            ),
    {
        let mut s = self;
        s.cooldown.set_remaining_ms(initial_cooldown_ms);
        s
    }

    pub fn is_ready(&self) -> (r: bool)
        ensures
            r == self@.timer.is_ready(),
    {
        self.cooldown.is_ready()
    }

    /// Puts the skill on its full cooldown after use.
    pub fn trigger_cooldown(&mut self)
        ensures
            final(self)@ == old(self)@.triggered(),
    {
        self.cooldown.trigger();
    }

    pub fn cooldown_ms(&self) -> (r: u64)
        ensures
            r == self@.timer.total_ms,
    {
        self.cooldown.total_ms()
    }

    pub fn remaining_cooldown_ms(&self) -> (r: u64)
        ensures
            r == self@.timer.remaining_ms,
    {
        self.cooldown.remaining_ms()
    }

    /// The remaining cooldown in whole seconds, rounded up.
    pub fn remaining_cooldown_secs(&self) -> (r: u64)
        ensures
            r == ceil_seconds(self@.timer.remaining_ms),
    {
        self.cooldown.remaining_seconds()
    }

    /// Advances the cooldown by the elapsed time; returns whether the skill
    /// became ready just now.
    pub fn tick_cooldown_ms(&mut self, elapsed_ms: u64) -> (became_ready: bool)
        ensures
            final(self)@ == old(self)@.ticked(elapsed_ms as nat),
            became_ready == (!old(self)@.is_ready() && final(self)@.is_ready()),
    {
        self.cooldown.tick(elapsed_ms)
    }

    /// The skill as listed among the player's actions.
    pub fn to_string(&self) -> (r: String)
        ensures
            r@ == skill_line(self.name@, self.description@, self@.timer),
    {
        let mut s = self.name.clone();
        s.append(" - ");
        s.append(self.description.as_str());
        if self.is_ready() {
            s.append(" [可用]");
        } else {
            s.append(" [冷却 ");
            push_decimal(&mut s, self.remaining_cooldown_secs());
            s.append(" 秒]");
        }
        s
    }
}

/// The emergency heal skill: restores 1 health, 20 seconds of cooldown,
/// ready at the start.
pub fn create_emergency_heal() -> (r: Skill)
    ensures
        r.name@ == "紧急救治"@,
        r.description@ == "恢复 1 点生命值"@,
        r.effect == SkillEffect::Heal(1),
        r@.timer == (CooldownState { total_ms: EMERGENCY_HEAL_COOLDOWN_MS as nat, remaining_ms: 0 }),
        r@.wf(),
{
    Skill::new("紧急救治", "恢复 1 点生命值", SkillEffect::Heal(1), EMERGENCY_HEAL_COOLDOWN_MS)
}

/// The fast cycle skill: shortens every card's remaining cooldown by one
/// second; 20 seconds of cooldown, first usable after one round.
pub fn create_fast_cycle() -> (r: Skill)
    ensures
        r.name@ == "快速循环"@,
        r.description@ == "开局 5 秒后可用；使当前所有卡牌冷却减少 1 秒"@,
        r.effect == SkillEffect::ReduceAllCardCooldownMs(FAST_CYCLE_REDUCTION_MS),
        r@.timer == (CooldownState {
            total_ms: FAST_CYCLE_COOLDOWN_MS as nat,
            remaining_ms: FAST_CYCLE_INITIAL_LOCKOUT_MS as nat,
        }),
        r@.wf(),
{
    Skill::new(
        "快速循环",
        "开局 5 秒后可用；使当前所有卡牌冷却减少 1 秒",
        SkillEffect::ReduceAllCardCooldownMs(FAST_CYCLE_REDUCTION_MS),
        FAST_CYCLE_COOLDOWN_MS,
    ).with_initial_cooldown_ms(FAST_CYCLE_INITIAL_LOCKOUT_MS)
}

} // verus!

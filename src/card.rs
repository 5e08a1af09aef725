use vstd::prelude::*;
use vstd::string::StringExecFns;

use crate::cooldown::{ceil_seconds, Cooldown, CooldownState};

verus! {

/// The cooldown every basic card starts with.
pub const DEFAULT_CARD_COOLDOWN_MS: u64 = 3_000;

/// The effect a card produces when played.
#[derive(Debug, Clone, Copy, PartialEq, Eq, Structural)]
pub enum CardEffect {
    /// Deals this much damage to the opponent.
    Damage(i32),
    /// Adds this much shield to the one who plays it.
    Shield(i32),
}

impl CardEffect {
    /// Magnitudes are never negative.
    pub open spec fn is_valid(self) -> bool {
        match self {
            CardEffect::Damage(n) => n >= 0,
            CardEffect::Shield(n) => n >= 0,
        }
    }
}

/// A playable card: a named effect behind its own cooldown.
#[derive(Debug, Clone)]
pub struct Card {
    pub name: String,
    pub description: String,
    pub effect: CardEffect,
    pub cooldown: Cooldown,
}

/// The abstract state of a card.
pub struct CardState {
    pub name: Seq<char>,
    pub description: Seq<char>,
    pub effect: CardEffect,
    pub timer: CooldownState,
}

impl CardState {
    pub open spec fn wf(self) -> bool {
        self.effect.is_valid()
    }

    pub open spec fn is_ready(self) -> bool {
        self.timer.is_ready()
    }

    pub open spec fn with_timer(self, timer: CooldownState) -> CardState {
        CardState { timer, ..self }
    }

    /// The card after `elapsed` milliseconds of cooldown have passed.
    pub open spec fn ticked(self, elapsed: nat) -> CardState {
        self.with_timer(self.timer.ticked(elapsed))
    }

    /// The card right after it was played.
    pub open spec fn triggered(self) -> CardState {
        self.with_timer(self.timer.triggered())
    }
}

impl View for Card {
    type V = CardState;

    open spec fn view(&self) -> CardState {
        CardState {
            name: self.name@,
            description: self.description@,
            effect: self.effect,
            timer: self.cooldown@,
        }
    }
}

/// How a card is listed: its name, a dash, its description.
pub open spec fn card_line(name: Seq<char>, description: Seq<char>) -> Seq<char> {
    name + " - "@ + description
}

impl Card {
    /// A card that is ready at once, with a full cooldown of `cooldown_ms`.
    pub fn new(name: &str, description: &str, effect: CardEffect, cooldown_ms: u64) -> (r: Card)
        requires
            effect.is_valid(),
        ensures
            r.name@ == name@,
            r.description@ == description@,
            r.effect == effect,
            r@.timer == (CooldownState { total_ms: cooldown_ms as nat, remaining_ms: 0 }),
            r@.wf(),
    {
        Card {
            name: String::from_str(name),
            description: String::from_str(description),
            effect,
            cooldown: Cooldown::new(cooldown_ms),
        }
    }

    pub fn is_ready(&self) -> (r: bool)
        ensures
            r == self@.timer.is_ready(),
    {
        self.cooldown.is_ready()
    }

    /// Starts the full cooldown after the card was played.
    pub fn trigger_cooldown(&mut self)
        ensures
            final(self)@ == old(self)@.triggered(),
    {
        self.cooldown.trigger();
    }

    /// Locks the card for `cooldown_ms`, whatever its full cooldown is.
    pub fn set_initial_cooldown_ms(&mut self, cooldown_ms: u64)
        ensures
            final(self)@ == old(self)@.with_timer(
                CooldownState { total_ms: old(self)@.timer.total_ms, remaining_ms: cooldown_ms as nat },
            ),
    {
        self.cooldown.set_remaining_ms(cooldown_ms);
    }

    /// Advances the cooldown by the elapsed wall-clock time.
    pub fn tick_cooldown_ms(&mut self, elapsed_ms: u64)
        ensures
            final(self)@ == old(self)@.ticked(elapsed_ms as nat),
    {
        self.cooldown.tick(elapsed_ms);
    }

    /// Shortens the remaining cooldown by `amount_ms`, floored at zero.
    pub fn reduce_cooldown_ms(&mut self, amount_ms: u64)
        ensures
            final(self)@ == old(self)@.ticked(amount_ms as nat),
    {
        self.cooldown.reduce(amount_ms);
    }

    pub fn cooldown_ms(&self) -> (r: u64)
        ensures
            r == self@.timer.total_ms,
    {
        self.cooldown.total_ms()
    }

    pub fn remaining_cooldown_ms(&self) -> (r: u64)
        ensures
            r == self@.timer.remaining_ms,
    {
        self.cooldown.remaining_ms()
    }

    /// The remaining cooldown in whole seconds, rounded up.
    pub fn remaining_cooldown_secs(&self) -> (r: u64)
        ensures
            r == ceil_seconds(self@.timer.remaining_ms),
    {
        self.cooldown.remaining_seconds()
    }

    /// The card as listed in a hand: `name - description`.
    pub fn to_string(&self) -> (r: String)
        ensures
            r@ == card_line(self.name@, self.description@),
    {
        let mut s = self.name.clone();
        s.append(" - ");
        s.append(self.description.as_str());
        s
    }
}

/// The basic attack card: deals 1 damage.
pub fn create_attack_card() -> (r: Card)
    ensures
        r.name@ == "攻击"@,
        r.description@ == "造成 1 点伤害"@,
        r.effect == CardEffect::Damage(1),
        r@.timer == (CooldownState { total_ms: DEFAULT_CARD_COOLDOWN_MS as nat, remaining_ms: 0 }),
        r@.wf(),
{
    Card::new("攻击", "造成 1 点伤害", CardEffect::Damage(1), DEFAULT_CARD_COOLDOWN_MS)
}

/// The basic defense card: 1 shield, which lasts until the round ends.
pub fn create_defense_card() -> (r: Card)
    ensures
        r.name@ == "防御"@,
        r.description@ == "获得 1 点护盾，持续 1 回合"@,
        r.effect == CardEffect::Shield(1),
        r@.timer == (CooldownState { total_ms: DEFAULT_CARD_COOLDOWN_MS as nat, remaining_ms: 0 }),
        r@.wf(),
{
    Card::new("防御", "获得 1 点护盾，持续 1 回合", CardEffect::Shield(1), DEFAULT_CARD_COOLDOWN_MS)
}

} // verus!

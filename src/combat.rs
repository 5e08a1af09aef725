use vstd::prelude::*;
use vstd::string::StringExecFns;

use crate::chance::random_in_range;
use crate::text::{decimal, push_decimal};

verus! {

pub open spec fn min_int(a: int, b: int) -> int {
    if a <= b { a } else { b }
}

pub open spec fn max_int(a: int, b: int) -> int {
    if a >= b { a } else { b }
}

/// Health and shield of a combatant, as mathematical integers.
pub struct VitalsState {
    pub hp: int,
    pub max_hp: int,
    pub shield: int,
}

impl VitalsState {
    /// Health lies between zero and the maximum, and the shield is not negative.
    pub open spec fn wf(self) -> bool {
        &&& 0 <= self.hp <= self.max_hp <= i32::MAX
        &&& 0 <= self.shield <= i32::MAX
    }

    pub open spec fn is_alive(self) -> bool {
        self.hp > 0
    }

    /// The part of a hit of `amount` that the shield takes.
    pub open spec fn absorbed(self, amount: int) -> int {
        min_int(amount, self.shield)
    }

    /// The state after a hit of `amount`: the shield absorbs first, the rest
    /// comes off the health, floored at zero.
    pub open spec fn damaged(self, amount: int) -> VitalsState {
        let absorbed = self.absorbed(amount);
        VitalsState {
            hp: max_int(0, self.hp - (amount - absorbed)),
            max_hp: self.max_hp,
            shield: self.shield - absorbed,
        }
    }

    /// The state after healing by `amount`, capped at the maximum.
    pub open spec fn healed(self, amount: int) -> VitalsState {
        VitalsState { hp: min_int(self.hp + amount, self.max_hp), ..self }
    }

    /// The state after gaining `amount` of shield (saturating at `i32::MAX`).
    pub open spec fn shielded(self, amount: int) -> VitalsState {
        VitalsState { shield: min_int(self.shield + amount, i32::MAX as int), ..self }
    }

    pub open spec fn cleared(self) -> VitalsState {
        VitalsState { shield: 0, ..self }
    }
}

/// The status line of a combatant: name, health over maximum, and the shield
/// when there is one.
pub open spec fn status_line(name: Seq<char>, v: VitalsState) -> Seq<char> {
    let base = name + ": "@ + decimal(v.hp as nat) + "/"@ + decimal(v.max_hp as nat) + " HP"@;
    if v.shield > 0 {
        base + " (🛡️"@ + decimal(v.shield as nat) + ")"@
    } else {
        base
    }
}

/// Health and shield, shared by every kind of combatant.
pub struct Vitals {
    hp: i32,
    max_hp: i32,
    shield: i32,
}

impl View for Vitals {
    type V = VitalsState;

    closed spec fn view(&self) -> VitalsState {
        VitalsState { hp: self.hp as int, max_hp: self.max_hp as int, shield: self.shield as int }
    }
}

impl Vitals {
    /// Full health, no shield.
    pub fn new(max_hp: i32) -> (r: Vitals)
        requires
            max_hp >= 0,
        ensures
            r@ == (VitalsState { hp: max_hp as int, max_hp: max_hp as int, shield: 0 }),
            r@.wf(),
    {
        Vitals { hp: max_hp, max_hp, shield: 0 }
    }

    /// Starts at `hp` out of `max_hp`, with no shield.
    pub fn with_hp(hp: i32, max_hp: i32) -> (r: Vitals)
        requires
            0 <= hp <= max_hp,
        ensures
            r@ == (VitalsState { hp: hp as int, max_hp: max_hp as int, shield: 0 }),
            r@.wf(),
    {
        Vitals { hp, max_hp, shield: 0 }
    }

    pub fn hp(&self) -> (r: i32)
        ensures
            r == self@.hp,
    {
        self.hp
    }

    pub fn max_hp(&self) -> (r: i32)
        ensures
            r == self@.max_hp,
    {
        self.max_hp
    }

    pub fn shield(&self) -> (r: i32)
        ensures
            r == self@.shield,
    {
        self.shield
    }

    pub fn add_shield(&mut self, amount: i32)
        requires
            old(self)@.wf(),
            amount >= 0,
        ensures
            final(self)@ == old(self)@.shielded(amount as int),
            final(self)@.wf(),
    {
        if self.shield > i32::MAX - amount {
            self.shield = i32::MAX;
        } else {
            self.shield = self.shield + amount;
        }
    }

    pub fn clear_shield(&mut self)
        requires
            old(self)@.wf(),
        ensures
            final(self)@ == old(self)@.cleared(),
            final(self)@.wf(),
    {
        self.shield = 0;
    }

    /// Takes a hit of `amount`: the shield absorbs what it can, the rest
    /// comes off the health, which stops at zero.
    pub fn take_damage(&mut self, amount: i32)
        requires
            old(self)@.wf(),
            amount >= 0,
        ensures
            final(self)@ == old(self)@.damaged(amount as int),
            final(self)@.wf(),
    {
        let absorbed = if amount <= self.shield { amount } else { self.shield };
        self.shield = self.shield - absorbed;
        let rest = amount - absorbed;
        if rest >= self.hp {
            self.hp = 0;
        } else {
            self.hp = self.hp - rest;
        }
    }

    /// Heals by `amount`, capped at the maximum; returns the health gained.
    pub fn heal(&mut self, amount: i32) -> (healed: i32)
        requires
            old(self)@.wf(),
            amount >= 0,
        ensures
            final(self)@ == old(self)@.healed(amount as int),
            final(self)@.wf(),
            healed == final(self)@.hp - old(self)@.hp,
    {
        let before = self.hp;
        if amount >= self.max_hp - self.hp {
            self.hp = self.max_hp;
        } else {
            self.hp = self.hp + amount;
        }
        self.hp - before
    }
}

/// What every combatant offers: health, shield, speed, and the mutators that
/// combat uses on them.
pub trait Combatant {
    /// Health and shield of this combatant.
    spec fn vitals(&self) -> VitalsState;

    /// The combatant's name.
    spec fn name_text(&self) -> Seq<char>;

    /// The chance, in percent, to dodge an incoming hit.
    spec fn dodge_percent(&self) -> nat;

    /// How fast the combatant is.
    spec fn speed_value(&self) -> int;

    /// Everything but health and shield is as in `before`.
    spec fn rest_unchanged(&self, before: &Self) -> bool;

    proof fn lemma_rest_unchanged_refl(&self)
        ensures
            self.rest_unchanged(self),
    ;

    fn name(&self) -> (r: &str)
        ensures
            r@ == self.name_text(),
    ;

    fn hp(&self) -> (r: i32)
        ensures
            r == self.vitals().hp,
    ;

    fn max_hp(&self) -> (r: i32)
        ensures
            r == self.vitals().max_hp,
    ;

    fn speed(&self) -> (r: i32)
        ensures
            r == self.speed_value(),
    ;

    fn shield(&self) -> (r: i32)
        ensures
            r == self.vitals().shield,
    ;

    fn add_shield(&mut self, amount: i32)
        requires
            old(self).vitals().wf(),
            amount >= 0,
        ensures
            final(self).vitals() == old(self).vitals().shielded(amount as int),
            final(self).vitals().wf(),
            final(self).name_text() == old(self).name_text(),
            final(self).dodge_percent() == old(self).dodge_percent(),
            final(self).speed_value() == old(self).speed_value(),
            final(self).rest_unchanged(old(self)),
    ;

    /// Drops the whole shield; used at round boundaries.
    fn clear_shield(&mut self)
        requires
            old(self).vitals().wf(),
        ensures
            final(self).vitals() == old(self).vitals().cleared(),
            final(self).vitals().wf(),
            final(self).name_text() == old(self).name_text(),
            final(self).dodge_percent() == old(self).dodge_percent(),
            final(self).speed_value() == old(self).speed_value(),
            final(self).rest_unchanged(old(self)),
    ;

    /// Deals damage, absorbing through the shield first.
    fn take_damage(&mut self, amount: i32)
        requires
            old(self).vitals().wf(),
            amount >= 0,
        ensures
            final(self).vitals() == old(self).vitals().damaged(amount as int),
            final(self).vitals().wf(),
            final(self).name_text() == old(self).name_text(),
            final(self).dodge_percent() == old(self).dodge_percent(),
            final(self).speed_value() == old(self).speed_value(),
            final(self).rest_unchanged(old(self)),
    ;

    /// Heals up to the maximum; returns the health actually gained.
    fn heal(&mut self, amount: i32) -> (healed: i32)
        requires
            old(self).vitals().wf(),
            amount >= 0,
        ensures
            final(self).vitals() == old(self).vitals().healed(amount as int),
            final(self).vitals().wf(),
            healed == final(self).vitals().hp - old(self).vitals().hp,
            final(self).name_text() == old(self).name_text(),
            final(self).dodge_percent() == old(self).dodge_percent(),
            final(self).speed_value() == old(self).speed_value(),
            final(self).rest_unchanged(old(self)),
    ;

    fn dodge_chance_percent(&self) -> (r: u32)
        ensures
            r == self.dodge_percent(),
            r <= 100,
    ;

    fn is_alive(&self) -> (r: bool)
        ensures
            r == self.vitals().is_alive(),
    {
        self.hp() > 0
    }

    fn display_status(&self) -> (r: String)
        requires
            self.vitals().wf(),
        ensures
            r@ == status_line(self.name_text(), self.vitals()),
    {
        let mut s = String::from_str(self.name());
        s.append(": ");
        push_decimal(&mut s, self.hp() as u64);
        s.append("/");
        push_decimal(&mut s, self.max_hp() as u64);
        s.append(" HP");
        if self.shield() > 0 {
            s.append(" (🛡️");
            push_decimal(&mut s, self.shield() as u64);
            s.append(")");
        }
        s
    }
}

/// What applying an effect to a combatant did.
#[derive(Debug, Clone, Copy, PartialEq, Eq, Structural)]
pub struct Outcome {
    /// The hit was dodged: neither shield nor health changed.
    pub dodged: bool,
    /// Damage taken by the shield.
    pub absorbed: i32,
    /// Damage that reached the health.
    pub dealt: i32,
    /// Health restored.
    pub healed: i32,
}

/// Resolves a hit of `amount` on `target`, given whether the dodge roll
/// succeeded. A dodged hit changes nothing; otherwise the shield absorbs what
/// it can and the rest comes off the health.
pub fn resolve_hit<T: Combatant>(target: &mut T, amount: i32, dodged: bool) -> (o: Outcome)
    requires
        old(target).vitals().wf(),
        amount >= 0,
    ensures
        o.dodged == dodged,
        o.healed == 0,
        dodged ==> o.absorbed == 0 && o.dealt == 0 && final(target).vitals() == old(target).vitals(),
        !dodged ==> {
            &&& o.absorbed == old(target).vitals().absorbed(amount as int)
            &&& o.dealt == amount - o.absorbed
            &&& final(target).vitals() == old(target).vitals().damaged(amount as int)
        },
        final(target).vitals().wf(),
        final(target).name_text() == old(target).name_text(),
        final(target).dodge_percent() == old(target).dodge_percent(),
        final(target).speed_value() == old(target).speed_value(),
        final(target).rest_unchanged(old(target)),
{
    if dodged {
        proof {
            target.lemma_rest_unchanged_refl();
        }
        return Outcome { dodged: true, absorbed: 0, dealt: 0, healed: 0 };
    }
    let shield_before = target.shield();
    target.take_damage(amount);
    let absorbed = shield_before - target.shield();
    Outcome { dodged: false, absorbed, dealt: amount - absorbed, healed: 0 }
}

/// Resolves a hit of `amount` on `target` given a dodge roll between 0 and
/// 99: the hit is dodged exactly when the roll is below the target's dodge
/// chance in percent.
pub fn resolve_roll<T: Combatant>(target: &mut T, amount: i32, roll: u64) -> (o: Outcome)
    requires
        old(target).vitals().wf(),
        amount >= 0,
        roll < 100,
    ensures
        o.dodged == (roll < old(target).dodge_percent()),
        o.healed == 0,
        o.dodged ==> o.absorbed == 0 && o.dealt == 0 && final(target).vitals() == old(target).vitals(),
        !o.dodged ==> {
            &&& o.absorbed == old(target).vitals().absorbed(amount as int)
            &&& o.dealt == amount - o.absorbed
            &&& final(target).vitals() == old(target).vitals().damaged(amount as int)
        },
        final(target).vitals().wf(),
        final(target).name_text() == old(target).name_text(),
        final(target).dodge_percent() == old(target).dodge_percent(),
        final(target).speed_value() == old(target).speed_value(),
        final(target).rest_unchanged(old(target)),
{
    let percent = target.dodge_chance_percent();
    resolve_hit(target, amount, roll < percent as u64)
}

/// Attacks `target` for `amount`: draws a dodge roll between 0 and 99 and
/// resolves the hit with it. A target with no dodge chance never dodges; one
/// with a full chance always does.
pub fn strike<T: Combatant>(target: &mut T, amount: i32) -> (o: Outcome)
    requires
        old(target).vitals().wf(),
        amount >= 0,
    ensures
        old(target).dodge_percent() == 0 ==> !o.dodged,
        old(target).dodge_percent() >= 100 ==> o.dodged,
        o.healed == 0,
        o.dodged ==> o.absorbed == 0 && o.dealt == 0 && final(target).vitals() == old(target).vitals(),
        !o.dodged ==> {
            &&& o.absorbed == old(target).vitals().absorbed(amount as int)
            &&& o.dealt == amount - o.absorbed
            &&& final(target).vitals() == old(target).vitals().damaged(amount as int)
        },
        final(target).vitals().wf(),
        final(target).name_text() == old(target).name_text(),
        final(target).dodge_percent() == old(target).dodge_percent(),
        final(target).speed_value() == old(target).speed_value(),
        final(target).rest_unchanged(old(target)),
{
    let roll = random_in_range(0, 99);
    resolve_roll(target, amount, roll)
}

} // verus!

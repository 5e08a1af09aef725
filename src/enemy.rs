use vstd::prelude::*;
use vstd::string::StringExecFns;

use crate::combat::{Combatant, Vitals, VitalsState};

verus! {

/// Chance, in percent, that the goblin rogue dodges a hit.
pub const GOBLIN_ROGUE_DODGE_PERCENT: u32 = 10;

/// A basic slime: no passive, never dodges.
pub struct Slime {
    name: String,
    vitals: Vitals,
    speed: i32,
}

impl Slime {
    /// A slime at full health with no shield.
    pub fn new(name: &str, max_hp: i32) -> (r: Slime)
        requires
            max_hp >= 0,
        ensures
            r.name_text() == name@,
            r.vitals() == (VitalsState { hp: max_hp as int, max_hp: max_hp as int, shield: 0 }),
            r.vitals().wf(),
            r.dodge_percent() == 0,
            r.speed_value() == 3,
    {
        Slime { name: String::from_str(name), vitals: Vitals::new(max_hp), speed: 3 }
    }
}

impl Combatant for Slime {
    closed spec fn vitals(&self) -> VitalsState {
        self.vitals@
    }

    closed spec fn name_text(&self) -> Seq<char> {
        self.name@
    }

    closed spec fn dodge_percent(&self) -> nat {
        0
    }

    closed spec fn speed_value(&self) -> int {
        self.speed as int
    }

    closed spec fn rest_unchanged(&self, before: &Self) -> bool {
        self.name == before.name && self.speed == before.speed
    }

    proof fn lemma_rest_unchanged_refl(&self) {
    }

    fn name(&self) -> (r: &str) {
        self.name.as_str()
    }

    fn hp(&self) -> (r: i32) {
        self.vitals.hp()
    }

    fn max_hp(&self) -> (r: i32) {
        self.vitals.max_hp()
    }

    fn speed(&self) -> (r: i32) {
        self.speed
    }

    fn shield(&self) -> (r: i32) {
        self.vitals.shield()
    }

    fn add_shield(&mut self, amount: i32) {
        self.vitals.add_shield(amount);
    }

    fn clear_shield(&mut self) {
        self.vitals.clear_shield();
    }

    fn take_damage(&mut self, amount: i32) {
        self.vitals.take_damage(amount);
    }

    fn heal(&mut self, amount: i32) -> (healed: i32) {
        self.vitals.heal(amount)
    }

    fn dodge_chance_percent(&self) -> (r: u32) {
        0
    }
}

/// A goblin rogue with the "dodge master" passive: each incoming hit has a
/// ten percent chance to miss entirely.
pub struct GoblinRogue {
    name: String,
    vitals: Vitals,
    speed: i32,
}

impl GoblinRogue {
    /// A goblin rogue at full health with no shield.
    pub fn new(name: &str, max_hp: i32) -> (r: GoblinRogue)
        requires
            max_hp >= 0,
        ensures
            r.name_text() == name@,
            r.vitals() == (VitalsState { hp: max_hp as int, max_hp: max_hp as int, shield: 0 }),
            r.vitals().wf(),
            r.dodge_percent() == GOBLIN_ROGUE_DODGE_PERCENT,
            r.speed_value() == 4,
    {
        GoblinRogue { name: String::from_str(name), vitals: Vitals::new(max_hp), speed: 4 }
    }
}

impl Combatant for GoblinRogue {
    closed spec fn vitals(&self) -> VitalsState {
        self.vitals@
    }

    closed spec fn name_text(&self) -> Seq<char> {
        self.name@
    }

    closed spec fn dodge_percent(&self) -> nat {
        GOBLIN_ROGUE_DODGE_PERCENT as nat
    }

    closed spec fn speed_value(&self) -> int {
        self.speed as int
    }

    closed spec fn rest_unchanged(&self, before: &Self) -> bool {
        self.name == before.name && self.speed == before.speed
    }

    proof fn lemma_rest_unchanged_refl(&self) {
    }

    fn name(&self) -> (r: &str) {
        self.name.as_str()
    }

    fn hp(&self) -> (r: i32) {
        self.vitals.hp()
    }

    fn max_hp(&self) -> (r: i32) {
        self.vitals.max_hp()
    }

    fn speed(&self) -> (r: i32) {
        self.speed
    }

    fn shield(&self) -> (r: i32) {
        self.vitals.shield()
    }

    fn add_shield(&mut self, amount: i32) {
        self.vitals.add_shield(amount);
    }

    fn clear_shield(&mut self) {
        self.vitals.clear_shield();
    }

    fn take_damage(&mut self, amount: i32) {
        self.vitals.take_damage(amount);
    }

    fn heal(&mut self, amount: i32) -> (healed: i32) {
        self.vitals.heal(amount)
    }

    /// Passive "dodge master": ten percent per hit.
    fn dodge_chance_percent(&self) -> (r: u32) {
        GOBLIN_ROGUE_DODGE_PERCENT
    }
}

} // verus!

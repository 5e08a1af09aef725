use vstd::prelude::*;
use vstd::string::StringExecFns;

use crate::card::{Card, CardState};
use crate::combat::{Combatant, Vitals, VitalsState};
use crate::engine::ROUND_DURATION_MS;
use crate::skill::{Skill, SkillState};

verus! {

/// How many skills a player can have equipped at once.
pub const MAX_SKILLS: usize = 2;

/// A passive ability of the player.
#[derive(Clone, Debug, PartialEq, Eq, Structural)]
pub enum PassiveSkill {
    /// "Prepared": one extra gold after each victory.
    Prepared,
}

impl PassiveSkill {
    pub open spec fn bonus_gold(self) -> int {
        match self {
            PassiveSkill::Prepared => 1,
        }
    }

    pub fn name(&self) -> (r: &'static str)
        ensures
            *self == PassiveSkill::Prepared ==> r@ == "预备"@,
    {
        match self {
            PassiveSkill::Prepared => "预备",
        }
    }

    /// Extra gold granted after a victory.
    pub fn victory_bonus_gold(&self) -> (r: i32)
        ensures
            r == self.bonus_gold(),
    {
        match self {
            PassiveSkill::Prepared => 1,
        }
    }
}

/// Every card after `elapsed` milliseconds of cooldown.
pub open spec fn cards_ticked(cards: Seq<CardState>, elapsed: nat) -> Seq<CardState> {
    cards.map_values(|c: CardState| c.ticked(elapsed))
}

/// Every skill after `elapsed` milliseconds of cooldown.
pub open spec fn skills_ticked(skills: Seq<SkillState>, elapsed: nat) -> Seq<SkillState> {
    skills.map_values(|s: SkillState| s.ticked(elapsed))
}

/// The abstract state of the player.
pub struct PlayerState {
    pub name: Seq<char>,
    pub vitals: VitalsState,
    pub speed: int,
    pub gold: int,
    pub passive: Option<PassiveSkill>,
    /// The hand, in order.
    pub cards: Seq<CardState>,
    /// The equipped skills, in order.
    pub skills: Seq<SkillState>,
}

impl PlayerState {
    pub open spec fn wf(self) -> bool {
        &&& self.vitals.wf()
        &&& 0 <= self.gold <= i32::MAX
        &&& self.skills.len() <= MAX_SKILLS
        &&& self.cards.len() + self.skills.len() <= usize::MAX
        &&& forall|i: int| 0 <= i < self.cards.len() ==> (#[trigger] self.cards[i]).wf()
        &&& forall|i: int| 0 <= i < self.skills.len() ==> (#[trigger] self.skills[i]).wf()
    }

    pub open spec fn bonus_gold(self) -> int {
        match self.passive {
            Some(p) => p.bonus_gold(),
            None => 0,
        }
    }
}

/// The player-controlled character: a combatant with a hand of cards, at most
/// two equipped skills, gold, and an optional passive.
pub struct Player {
    name: String,
    vitals: Vitals,
    speed: i32,
    gold: i32,
    passive: Option<PassiveSkill>,
    pub hand: Vec<Card>,
    pub skills: Vec<Skill>,
}

impl View for Player {
    type V = PlayerState;

    closed spec fn view(&self) -> PlayerState {
        PlayerState {
            name: self.name@,
            vitals: self.vitals@,
            speed: self.speed as int,
            gold: self.gold as int,
            passive: self.passive,
            cards: self.hand@.map_values(|c: Card| c@),
            skills: self.skills@.map_values(|s: Skill| s@),
        }
    }
}

impl Player {
    /// A player at full health, with no cards, skills, gold or passive.
    pub fn new(name: &str, max_hp: i32) -> (r: Player)
        requires
            max_hp >= 0,
        ensures
            r@ == (PlayerState {
                name: name@,
                vitals: VitalsState { hp: max_hp as int, max_hp: max_hp as int, shield: 0 },
                speed: 3,
                gold: 0,
                passive: None,
                cards: Seq::empty(),
                skills: Seq::empty(),
            }),
            r@.wf(),
    {
        let r = Player {
            name: String::from_str(name),
            vitals: Vitals::new(max_hp),
            speed: 3,
            gold: 0,
            passive: None,
            hand: Vec::new(),
            skills: Vec::new(),
        };
        assert(r@.cards =~= Seq::empty());
        assert(r@.skills =~= Seq::empty());
        r
    }

    pub fn set_passive(&mut self, passive: PassiveSkill)
        ensures
            final(self)@ == (PlayerState { passive: Some(passive), ..old(self)@ }),
    {
        self.passive = Some(passive);
    }

    pub fn passive(&self) -> (r: Option<&PassiveSkill>)
        ensures
            r is None <==> self@.passive is None,
            r is Some ==> *r->0 == self@.passive->0,
    {
        self.passive.as_ref()
    }

    pub fn gold(&self) -> (r: i32)
        ensures
            r == self@.gold,
    {
        self.gold
    }

    /// Adds `amount` of gold (which may be negative); the total never drops
    /// below zero.
    pub fn add_gold(&mut self, amount: i32)
        requires
            old(self)@.wf(),
            old(self)@.gold + amount <= i32::MAX,
        ensures
            final(self)@ == (PlayerState {
                gold: if old(self)@.gold + amount >= 0 { old(self)@.gold + amount } else { 0 },
                ..old(self)@
            }),
    {
        let total = self.gold + amount;
        self.gold = if total >= 0 { total } else { 0 };
    }

    /// Extra gold after a victory: what the passive grants, or none.
    pub fn victory_bonus_gold(&self) -> (r: i32)
        ensures
            r == self@.bonus_gold(),
    {
        match &self.passive {
            Some(p) => p.victory_bonus_gold(),
            None => 0,
        }
    }

    /// Puts a card at the end of the hand.
    pub fn add_card(&mut self, card: Card)
        ensures
            final(self)@ == (PlayerState { cards: old(self)@.cards.push(card@), ..old(self)@ }),
    {
        self.hand.push(card);
        assert(self@.cards =~= old(self)@.cards.push(card@));
    }

    /// Equips a skill; refuses, changing nothing, when all slots are taken.
    pub fn equip_skill(&mut self, skill: Skill) -> (equipped: bool)
        ensures
            equipped == (old(self)@.skills.len() < MAX_SKILLS),
            equipped ==> final(self)@ == (PlayerState { skills: old(self)@.skills.push(skill@), ..old(self)@ }),
            !equipped ==> final(self)@ == old(self)@,
    {
        if self.skills.len() >= MAX_SKILLS {
            return false;
        }
        self.skills.push(skill);
        assert(self@.skills =~= old(self)@.skills.push(skill@));
        true
    }

    /// Advances every skill's cooldown by one round.
    pub fn tick_skill_cooldowns(&mut self)
        ensures
            final(self)@ == (PlayerState {
                skills: skills_ticked(old(self)@.skills, ROUND_DURATION_MS as nat),
                ..old(self)@
            }),
    {
        self.tick_skill_cooldowns_ms(ROUND_DURATION_MS);
    }

    /// Advances every skill's cooldown by the elapsed time.
    pub fn tick_skill_cooldowns_ms(&mut self, elapsed_ms: u64)
        ensures
            final(self)@ == (PlayerState {
                skills: skills_ticked(old(self)@.skills, elapsed_ms as nat),
                ..old(self)@
            }),
    {
        let n = self.skills.len();
        let mut i: usize = 0;
        while i < n
            invariant
                n == self.skills.len(),
                i <= n,
                self.name == old(self).name,
                self.vitals == old(self).vitals,
                self.speed == old(self).speed,
                self.gold == old(self).gold,
                self.passive == old(self).passive,
                self.hand == old(self).hand,
                forall|j: int| 0 <= j < i ==> self.skills@[j]@ == old(self).skills@[j]@.ticked(elapsed_ms as nat),
                forall|j: int| i <= j < n ==> self.skills@[j] == old(self).skills@[j],
            decreases n - i,
        {
            self.skills[i].tick_cooldown_ms(elapsed_ms);
            i += 1;
        }
        assert(self@.skills =~= skills_ticked(old(self)@.skills, elapsed_ms as nat));
    }

    /// Advances every card's cooldown by the elapsed time.
    pub fn tick_card_cooldowns_ms(&mut self, elapsed_ms: u64)
        ensures
            final(self)@ == (PlayerState {
                cards: cards_ticked(old(self)@.cards, elapsed_ms as nat),
                ..old(self)@
            }),
    {
        let n = self.hand.len();
        let mut i: usize = 0;
        while i < n
            invariant
                n == self.hand.len(),
                i <= n,
                self.name == old(self).name,
                self.vitals == old(self).vitals,
                self.speed == old(self).speed,
                self.gold == old(self).gold,
                self.passive == old(self).passive,
                self.skills == old(self).skills,
                forall|j: int| 0 <= j < i ==> self.hand@[j]@ == old(self).hand@[j]@.ticked(elapsed_ms as nat),
                forall|j: int| i <= j < n ==> self.hand@[j] == old(self).hand@[j],
            decreases n - i,
        {
            self.hand[i].tick_cooldown_ms(elapsed_ms);
            i += 1;
        }
        assert(self@.cards =~= cards_ticked(old(self)@.cards, elapsed_ms as nat));
    }

    /// Shortens every card's remaining cooldown by `amount_ms`, floored at zero.
    pub fn reduce_card_cooldowns_ms(&mut self, amount_ms: u64)
        ensures
            final(self)@ == (PlayerState {
                cards: cards_ticked(old(self)@.cards, amount_ms as nat),
                ..old(self)@
            }),
    {
        let n = self.hand.len();
        let mut i: usize = 0;
        while i < n
            invariant
                n == self.hand.len(),
                i <= n,
                self.name == old(self).name,
                self.vitals == old(self).vitals,
                self.speed == old(self).speed,
                self.gold == old(self).gold,
                self.passive == old(self).passive,
                self.skills == old(self).skills,
                forall|j: int| 0 <= j < i ==> self.hand@[j]@ == old(self).hand@[j]@.ticked(amount_ms as nat),
                forall|j: int| i <= j < n ==> self.hand@[j] == old(self).hand@[j],
            decreases n - i,
        {
            self.hand[i].reduce_cooldown_ms(amount_ms);
            i += 1;
        }
        assert(self@.cards =~= cards_ticked(old(self)@.cards, amount_ms as nat));
    }

    pub fn card_count(&self) -> (r: usize)
        ensures
            r == self@.cards.len(),
    {
        self.hand.len()
    }

    pub fn skill_count(&self) -> (r: usize)
        ensures
            r == self@.skills.len(),
    {
        self.skills.len()
    }

    /// The card at `index` in the hand.
    pub fn card(&self, index: usize) -> (r: &Card)
        requires
            index < self@.cards.len(),
        ensures
            r@ == self@.cards[index as int],
    {
        &self.hand[index]
    }

    /// The equipped skill at `index`.
    pub fn skill(&self, index: usize) -> (r: &Skill)
        requires
            index < self@.skills.len(),
        ensures
            r@ == self@.skills[index as int],
    {
        &self.skills[index]
    }

    /// Starts the cooldown of the card at `index`.
    pub fn trigger_card(&mut self, index: usize)
        requires
            index < old(self)@.cards.len(),
        ensures
            final(self)@ == (PlayerState {
                cards: old(self)@.cards.update(index as int, old(self)@.cards[index as int].triggered()),
                ..old(self)@
            }),
    {
        self.hand[index].trigger_cooldown();
        assert(self@.cards =~= old(self)@.cards.update(index as int, old(self)@.cards[index as int].triggered()));
    }

    /// Starts the cooldown of the skill at `index`.
    pub fn trigger_skill(&mut self, index: usize)
        requires
            index < old(self)@.skills.len(),
        ensures
            final(self)@ == (PlayerState {
                skills: old(self)@.skills.update(index as int, old(self)@.skills[index as int].triggered()),
                ..old(self)@
            }),
    {
        self.skills[index].trigger_cooldown();
        assert(self@.skills =~= old(self)@.skills.update(index as int, old(self)@.skills[index as int].triggered()));
    }
}

impl Combatant for Player {
    open spec fn vitals(&self) -> VitalsState {
        self@.vitals
    }

    open spec fn name_text(&self) -> Seq<char> {
        self@.name
    }

    open spec fn dodge_percent(&self) -> nat {
        0
    }

    open spec fn speed_value(&self) -> int {
        self@.speed
    }

    open spec fn rest_unchanged(&self, before: &Self) -> bool {
        self@ == (PlayerState { vitals: self@.vitals, ..before@ })
    }

    proof fn lemma_rest_unchanged_refl(&self) {
    }

    fn name(&self) -> (r: &str) {
        self.name.as_str()
    }

    fn hp(&self) -> (r: i32) {
        self.vitals.hp()
    }

    fn max_hp(&self) -> (r: i32) {
        self.vitals.max_hp()
    }

    fn speed(&self) -> (r: i32) {
        self.speed
    }

    fn shield(&self) -> (r: i32) {
        self.vitals.shield()
    }

    fn add_shield(&mut self, amount: i32)
    {
        self.vitals.add_shield(amount);
    }

    fn clear_shield(&mut self)
    {
        self.vitals.clear_shield();
    }

    fn take_damage(&mut self, amount: i32)
    {
        self.vitals.take_damage(amount);
    }

    fn heal(&mut self, amount: i32) -> (healed: i32)
    {
        self.vitals.heal(amount)
    }

    fn dodge_chance_percent(&self) -> (r: u32) {
        0
    }
}

} // verus!

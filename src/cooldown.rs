use vstd::prelude::*;

verus! {

/// Number of milliseconds in one second.
pub const MS_PER_SECOND: u64 = 1_000;

/// `n` minus `d`, floored at zero.
pub open spec fn sub_floor(n: nat, d: nat) -> nat {
    if n >= d {
        (n - d) as nat
    } else {
        0
    }
}

/// Whole seconds needed to cover `ms` milliseconds (ceiling division).
pub open spec fn ceil_seconds(ms: nat) -> nat {
    (ms + 999) / 1000
}

/// The abstract state of a cooldown timer.
pub struct CooldownState {
    /// The full cooldown, set again by every trigger.
    pub total_ms: nat,
    /// What is left before the action can be used again.
    pub remaining_ms: nat,
}

impl CooldownState {
    pub open spec fn is_ready(self) -> bool {
        self.remaining_ms == 0
    }

    /// The state after `elapsed` milliseconds have passed.
    pub open spec fn ticked(self, elapsed: nat) -> CooldownState {
        CooldownState { total_ms: self.total_ms, remaining_ms: sub_floor(self.remaining_ms, elapsed) }
    }

    /// The state right after the owning action was used.
    pub open spec fn triggered(self) -> CooldownState {
        CooldownState { total_ms: self.total_ms, remaining_ms: self.total_ms }
    }
}

/// The timer after ticks of each of `elapsed`, in order.
pub open spec fn ticked_by_all(c: CooldownState, elapsed: Seq<nat>) -> CooldownState
    decreases elapsed.len(),
{
    if elapsed.len() == 0 {
        c
    } else {
        ticked_by_all(c, elapsed.drop_last()).ticked(elapsed.last())
    }
}

/// All of `elapsed` added up.
pub open spec fn total_elapsed(elapsed: Seq<nat>) -> nat
    decreases elapsed.len(),
{
    if elapsed.len() == 0 {
        0
    } else {
        total_elapsed(elapsed.drop_last()) + elapsed.last()
    }
}

/// However a stretch of time is split into ticks, the timer ends the same:
/// what remained minus all the elapsed time, floored at zero (never below),
/// with the full cooldown untouched.
pub proof fn lemma_ticks_add_up(c: CooldownState, elapsed: Seq<nat>)
    ensures
        ticked_by_all(c, elapsed).remaining_ms == sub_floor(c.remaining_ms, total_elapsed(elapsed)),
        ticked_by_all(c, elapsed).total_ms == c.total_ms,
    decreases elapsed.len(),
{
    if elapsed.len() > 0 {
        lemma_ticks_add_up(c, elapsed.drop_last());
    }
}

/// A millisecond countdown attached to a card or a skill.
///
/// The remaining time never underflows: ticking and reducing subtract with a
/// floor at zero, and the timer is ready exactly when nothing remains.
#[derive(Debug, Clone, Copy, PartialEq, Eq, Structural)]
pub struct Cooldown {
    total_ms: u64,
    remaining_ms: u64,
}

impl View for Cooldown {
    type V = CooldownState;

    closed spec fn view(&self) -> CooldownState {
        CooldownState { total_ms: self.total_ms as nat, remaining_ms: self.remaining_ms as nat }
    }
}

impl Cooldown {
    /// A timer with the given full cooldown, ready at once.
    pub fn new(total_ms: u64) -> (r: Cooldown)
        ensures
            r@.total_ms == total_ms,
            r@.remaining_ms == 0,
    {
        Cooldown { total_ms, remaining_ms: 0 }
    }

    /// Sets the remaining time directly, as an initial lockout.
    pub fn set_remaining_ms(&mut self, remaining_ms: u64)
        ensures
            final(self)@.total_ms == old(self)@.total_ms,
            final(self)@.remaining_ms == remaining_ms,
    {
        self.remaining_ms = remaining_ms;
    }

    /// Starts the full cooldown, whatever was left of the previous one.
    pub fn trigger(&mut self)
        ensures
            final(self)@ == old(self)@.triggered(),
    {
        self.remaining_ms = self.total_ms;
    }

    /// Advances the timer by `elapsed_ms`; returns whether it became ready
    /// just now. A tick of zero changes nothing and reports no transition.
    pub fn tick(&mut self, elapsed_ms: u64) -> (became_ready: bool)
        ensures
            final(self)@ == old(self)@.ticked(elapsed_ms as nat),
            became_ready == (old(self)@.remaining_ms > 0 && final(self)@.remaining_ms == 0),
            elapsed_ms == 0 ==> final(self)@ == old(self)@,
    {
        if self.remaining_ms == 0 || elapsed_ms == 0 {
            return false;
        }
        self.remaining_ms = self.remaining_ms.saturating_sub(elapsed_ms);
        self.remaining_ms == 0
    }

    /// Shortens the remaining time by `amount_ms`, floored at zero.
    pub fn reduce(&mut self, amount_ms: u64)
        ensures
            final(self)@ == old(self)@.ticked(amount_ms as nat),
    {
        self.remaining_ms = self.remaining_ms.saturating_sub(amount_ms);
    }

    pub fn is_ready(&self) -> (r: bool)
        ensures
            r == self@.is_ready(),
    {
        self.remaining_ms == 0
    }

    pub fn total_ms(&self) -> (r: u64)
        ensures
            r == self@.total_ms,
    {
        self.total_ms
    }

    pub fn remaining_ms(&self) -> (r: u64)
        ensures
            r == self@.remaining_ms,
    {
        self.remaining_ms
    }

    /// The remaining time in whole seconds, rounded up; zero when ready.
    pub fn remaining_seconds(&self) -> (r: u64)
        ensures
            r == ceil_seconds(self@.remaining_ms),
    {
        let whole = self.remaining_ms / MS_PER_SECOND;
        if self.remaining_ms % MS_PER_SECOND == 0 {
            whole
        } else {
            whole + 1
        }
    }
}

} // verus!

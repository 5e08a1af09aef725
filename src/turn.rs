use vstd::prelude::*;
use vstd::string::StringExecFns;

verus! {

/// Whose turn it currently is.
#[derive(Debug, Clone, Copy, PartialEq, Eq, Structural)]
pub enum TurnPhase {
    PlayerTurn,
    EnemyTurn,
}

impl TurnPhase {
    /// The other side's turn.
    pub fn next(self) -> (r: TurnPhase)
        ensures
            r != self,
    {
        match self {
            TurnPhase::PlayerTurn => TurnPhase::EnemyTurn,
            TurnPhase::EnemyTurn => TurnPhase::PlayerTurn,
        }
    }

    /// The label shown for the phase.
    pub fn to_string(self) -> (r: String)
        ensures
            self == TurnPhase::PlayerTurn ==> r@ == "玩家回合"@,
            self == TurnPhase::EnemyTurn ==> r@ == "敌人回合"@,
    {
        match self {
            TurnPhase::PlayerTurn => String::from_str("玩家回合"),
            TurnPhase::EnemyTurn => String::from_str("敌人回合"),
        }
    }
}

} // verus!

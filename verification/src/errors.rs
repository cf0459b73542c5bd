//! The ways in which a game operation can fail.

use vstd::prelude::*;

verus! {

/// Why an operation was refused.
#[derive(Debug, Clone, Copy, PartialEq, Eq, Structural)]
pub enum GameErrorCode {
    /// The slot index is not below `MAX_ZOMBIES`.
    InvalidZombieId,
    /// The zombie fought less than a cooldown ago.
    ZombieNotReady,
    InvalidDna,
    /// The selection is not below `MAX_CARDS`.
    InvalidSelection,
    ArmyFull,
    InsufficientXp,
    InvalidBattleOutcome,
    BattleInProgress,
    /// The requester does not own the army.
    Unauthorized,
    /// A counter would exceed its range.
    ArithmeticOverflow,
    /// Every slot of the army holds a zombie.
    NoEmptySlot,
}

impl GameErrorCode {
    /// The number under which the error is reported: its position in the
    /// declaration, counted from zero.
    pub open spec fn code_spec(self) -> u32 {
        match self {
            GameErrorCode::InvalidZombieId => 0,
            GameErrorCode::ZombieNotReady => 1,
            GameErrorCode::InvalidDna => 2,
            GameErrorCode::InvalidSelection => 3,
            GameErrorCode::ArmyFull => 4,
            GameErrorCode::InsufficientXp => 5,
            GameErrorCode::InvalidBattleOutcome => 6,
            GameErrorCode::BattleInProgress => 7,
            GameErrorCode::Unauthorized => 8,
            GameErrorCode::ArithmeticOverflow => 9,
            GameErrorCode::NoEmptySlot => 10,
        }
    }

    /// The text that describes the error.
    pub open spec fn message_spec(self) -> Seq<char> {
        match self {
            GameErrorCode::InvalidZombieId => "Invalid zombie ID"@,
            GameErrorCode::ZombieNotReady => "Zombie is not ready to fight"@,
            GameErrorCode::InvalidDna => "Invalid DNA value"@,
            GameErrorCode::InvalidSelection => "Invalid selection"@,
            GameErrorCode::ArmyFull => "Army is full"@,
            GameErrorCode::InsufficientXp => "Insufficient XP"@,
            GameErrorCode::InvalidBattleOutcome => "Invalid battle outcome"@,
            GameErrorCode::BattleInProgress => "Battle already in progress"@,
            GameErrorCode::Unauthorized => "Unauthorized access"@,
            GameErrorCode::ArithmeticOverflow => "Arithmetic overflow"@,
            GameErrorCode::NoEmptySlot => "You have reach your army limit"@,
        }
    }

    /// The number under which the error is reported.
    pub fn code(self) -> (code: u32)
        ensures
            code == self.code_spec(),
    {
        match self {
            GameErrorCode::InvalidZombieId => 0,
            GameErrorCode::ZombieNotReady => 1,
            GameErrorCode::InvalidDna => 2,
            GameErrorCode::InvalidSelection => 3,
            GameErrorCode::ArmyFull => 4,
            GameErrorCode::InsufficientXp => 5,
            GameErrorCode::InvalidBattleOutcome => 6,
            GameErrorCode::BattleInProgress => 7,
            GameErrorCode::Unauthorized => 8,
            GameErrorCode::ArithmeticOverflow => 9,
            GameErrorCode::NoEmptySlot => 10,
        }
    }

    /// The text that describes the error.
    pub fn message(self) -> (text: &'static str)
        ensures
            text@ == self.message_spec(),
    {
        match self {
            GameErrorCode::InvalidZombieId => "Invalid zombie ID",
            GameErrorCode::ZombieNotReady => "Zombie is not ready to fight",
            GameErrorCode::InvalidDna => "Invalid DNA value",
            GameErrorCode::InvalidSelection => "Invalid selection",
            GameErrorCode::ArmyFull => "Army is full",
            GameErrorCode::InsufficientXp => "Insufficient XP",
            GameErrorCode::InvalidBattleOutcome => "Invalid battle outcome",
            GameErrorCode::BattleInProgress => "Battle already in progress",
            GameErrorCode::Unauthorized => "Unauthorized access",
            GameErrorCode::ArithmeticOverflow => "Arithmetic overflow",
            GameErrorCode::NoEmptySlot => "You have reach your army limit",
        }
    }
}

/// Different errors are reported under different numbers.
pub proof fn lemma_error_codes_distinct(a: GameErrorCode, b: GameErrorCode)
    requires
        a.code_spec() == b.code_spec(),
    ensures
        a == b,
{
}

} // verus!

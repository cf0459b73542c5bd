//! The requests that the game accepts and the bytes that carry them.
//!
//! The first byte of a request is the tag of its instruction. A battle
//! request is 29 bytes long: the tag, the fighter's slot, the selection, and
//! three candidate DNA values of eight bytes each in little-endian order; its
//! last two bytes carry nothing. A request to remove a zombie carries the
//! slot in its second byte.

use crate::constants::MAX_CARDS;
use crate::le::le_u64_spec;
use crate::le::read_u64_le;
use vstd::prelude::*;
use vstd::slice::slice_subrange;

verus! {

/// Length of a battle request in bytes.
pub const BATTLE_REQUEST_LEN: usize = 29;

/// The operations of the game.
#[derive(Clone, Copy, Debug, PartialEq, Eq, Structural)]
pub enum GameInstruction {
    Init,
    Battle,
    RemoveZombie,
}

impl GameInstruction {
    /// The byte that stands for the instruction.
    pub open spec fn tag_spec(self) -> u8 {
        match self {
            GameInstruction::Init => 0,
            GameInstruction::Battle => 1,
            GameInstruction::RemoveZombie => 2,
        }
    }

    /// The instruction that a byte stands for, if any.
    pub open spec fn from_tag_spec(tag: u8) -> Option<GameInstruction> {
        if tag == 0 {
            Some(GameInstruction::Init)
        } else if tag == 1 {
            Some(GameInstruction::Battle)
        } else if tag == 2 {
            Some(GameInstruction::RemoveZombie)
        } else {
            None
        }
    }

    /// The byte that stands for the instruction.
    pub fn tag(self) -> (tag: u8)
        ensures
            tag == self.tag_spec(),
    {
        match self {
            GameInstruction::Init => 0,
            GameInstruction::Battle => 1,
            GameInstruction::RemoveZombie => 2,
        }
    }

    /// The instruction that `tag` stands for; `None` for a byte that stands
    /// for no instruction.
    pub fn from_tag(tag: u8) -> (instruction: Option<GameInstruction>)
        ensures
            instruction == GameInstruction::from_tag_spec(tag),
    {
        match tag {
            0 => Some(GameInstruction::Init),
            1 => Some(GameInstruction::Battle),
            2 => Some(GameInstruction::RemoveZombie),
            _ => None,
        }
    }
}

/// A byte stands for an instruction exactly when it is that instruction's
/// tag.
pub proof fn lemma_tag_round_trip(instruction: GameInstruction, tag: u8)
    ensures
        GameInstruction::from_tag_spec(instruction.tag_spec()) == Some(instruction),
        GameInstruction::from_tag_spec(tag) == Some(instruction) <==> tag
            == instruction.tag_spec(),
{
}

/// What a battle request asks for.
#[derive(Clone, Copy, Debug, PartialEq)]
pub struct BattleArgs {
    pub zombie_id: u8,
    pub selection: u8,
    pub dna_values: [u64; MAX_CARDS],
}

/// What a battle request asks for, as plain values.
#[verifier::ext_equal]
pub struct BattleArgsView {
    pub zombie_id: u8,
    pub selection: u8,
    pub dna_values: Seq<u64>,
}

impl View for BattleArgs {
    type V = BattleArgsView;

    open spec fn view(&self) -> BattleArgsView {
        BattleArgsView {
            zombie_id: self.zombie_id,
            selection: self.selection,
            dna_values: self.dna_values@,
        }
    }
}

/// The instruction that a request names: the one its first byte stands for.
pub open spec fn parse_instruction_spec(data: Seq<u8>) -> Option<GameInstruction> {
    if data.len() == 0 {
        None
    } else {
        GameInstruction::from_tag_spec(data[0])
    }
}

/// What a battle request of the right length asks for.
pub open spec fn parse_battle_spec(data: Seq<u8>) -> Option<BattleArgsView> {
    if data.len() != BATTLE_REQUEST_LEN {
        None
    } else {
        Some(
            BattleArgsView {
                zombie_id: data[1],
                selection: data[2],
                dna_values: seq![
                    le_u64_spec(data.subrange(3, 11)) as u64,
                    le_u64_spec(data.subrange(11, 19)) as u64,
                    le_u64_spec(data.subrange(19, 27)) as u64,
                ],
            },
        )
    }
}

/// The slot that a request to remove a zombie names.
pub open spec fn parse_remove_zombie_spec(data: Seq<u8>) -> Option<u8> {
    if data.len() < 2 {
        None
    } else {
        Some(data[1])
    }
}

/// Reads the instruction that a request names. `None` for an empty request
/// and for a first byte that stands for no instruction.
pub fn parse_instruction(data: &[u8]) -> (instruction: Option<GameInstruction>)
    ensures
        instruction == parse_instruction_spec(data@),
{
    if data.len() == 0 {
        return None;
    }
    GameInstruction::from_tag(data[0])
}

/// Reads a battle request. `None` unless the request is exactly
/// `BATTLE_REQUEST_LEN` bytes long.
pub fn parse_battle(data: &[u8]) -> (args: Option<BattleArgs>)
    ensures
        match args {
            Some(args) => parse_battle_spec(data@) == Some(args@),
            None => parse_battle_spec(data@) is None,
        },
{
    if data.len() != BATTLE_REQUEST_LEN {
        return None;
    }
    let zombie_id: u8 = data[1];
    let selection: u8 = data[2];
    let dna1: u64 = read_u64_le(slice_subrange(data, 3, 11));
    let dna2: u64 = read_u64_le(slice_subrange(data, 11, 19));
    let dna3: u64 = read_u64_le(slice_subrange(data, 19, 27));
    let args = BattleArgs { zombie_id, selection, dna_values: [dna1, dna2, dna3] };
    assert(args@.dna_values =~= parse_battle_spec(data@)->Some_0.dna_values);
    Some(args)
}

/// Reads the slot from a request to remove a zombie. `None` for a request
/// shorter than two bytes.
pub fn parse_remove_zombie(data: &[u8]) -> (zombie_id: Option<u8>)
    ensures
        zombie_id == parse_remove_zombie_spec(data@),
{
    if data.len() < 2 {
        return None;
    }
    Some(data[1])
}

} // verus!

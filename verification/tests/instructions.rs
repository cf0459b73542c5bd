use zombie_army::errors::GameErrorCode;
use zombie_army::instructions::parse_battle;
use zombie_army::instructions::parse_instruction;
use zombie_army::instructions::parse_remove_zombie;
use zombie_army::instructions::BattleArgs;
use zombie_army::instructions::GameInstruction;
use zombie_army::instructions::BATTLE_REQUEST_LEN;

#[test]
fn instruction_tags() {
    assert_eq!(GameInstruction::Init.tag(), 0);
    assert_eq!(GameInstruction::Battle.tag(), 1);
    assert_eq!(GameInstruction::RemoveZombie.tag(), 2);
}

#[test]
fn from_tag_knows_three_instructions() {
    assert_eq!(GameInstruction::from_tag(0), Some(GameInstruction::Init));
    assert_eq!(GameInstruction::from_tag(1), Some(GameInstruction::Battle));
    assert_eq!(GameInstruction::from_tag(2), Some(GameInstruction::RemoveZombie));
    for tag in 3u8..=255 {
        assert_eq!(GameInstruction::from_tag(tag), None);
    }
}

#[test]
fn from_tag_inverts_tag() {
    for instruction in [GameInstruction::Init, GameInstruction::Battle, GameInstruction::RemoveZombie] {
        assert_eq!(GameInstruction::from_tag(instruction.tag()), Some(instruction));
    }
}

#[test]
fn parse_instruction_reads_the_first_byte() {
    assert_eq!(parse_instruction(&[]), None);
    assert_eq!(parse_instruction(&[0]), Some(GameInstruction::Init));
    assert_eq!(parse_instruction(&[1, 9, 9]), Some(GameInstruction::Battle));
    assert_eq!(parse_instruction(&[2, 4]), Some(GameInstruction::RemoveZombie));
    assert_eq!(parse_instruction(&[3]), None);
    assert_eq!(parse_instruction(&[255, 0]), None);
}

#[test]
fn parse_battle_reads_slot_selection_and_candidates() {
    assert_eq!(BATTLE_REQUEST_LEN, 29);
    let mut data = vec![1u8, 4, 2];
    data.extend_from_slice(&0x0102_0304_0506_0708u64.to_le_bytes());
    data.extend_from_slice(&0x9f00_0000_0000_0000u64.to_le_bytes());
    data.extend_from_slice(&u64::MAX.to_le_bytes());
    data.extend_from_slice(&[0xaa, 0xbb]);
    assert_eq!(data.len(), 29);
    assert_eq!(
        parse_battle(&data),
        Some(BattleArgs {
            zombie_id: 4,
            selection: 2,
            dna_values: [0x0102_0304_0506_0708, 0x9f00_0000_0000_0000, u64::MAX],
        })
    );
}

#[test]
fn parse_battle_is_little_endian() {
    let mut data = [0u8; 29];
    data[3] = 1;
    data[12] = 1;
    data[26] = 1;
    let args = parse_battle(&data).unwrap();
    assert_eq!(args.dna_values, [1, 256, 1 << 56]);
    assert_eq!(args.zombie_id, 0);
    assert_eq!(args.selection, 0);
}

#[test]
fn parse_battle_ignores_the_last_two_bytes() {
    let mut data = [0u8; 29];
    let blank = parse_battle(&data);
    data[27] = 200;
    data[28] = 100;
    assert_eq!(parse_battle(&data), blank);
}

#[test]
fn parse_battle_wants_exactly_twenty_nine_bytes() {
    for len in [0usize, 1, 3, 27, 28, 30, 64] {
        assert_eq!(parse_battle(&vec![1u8; len]), None);
    }
    assert!(parse_battle(&vec![1u8; 29]).is_some());
}

#[test]
fn parse_remove_zombie_reads_the_second_byte() {
    assert_eq!(parse_remove_zombie(&[2, 7]), Some(7));
    assert_eq!(parse_remove_zombie(&[2, 15, 99]), Some(15));
    assert_eq!(parse_remove_zombie(&[2]), None);
    assert_eq!(parse_remove_zombie(&[]), None);
}

#[test]
fn error_codes_count_from_zero() {
    assert_eq!(GameErrorCode::InvalidZombieId.code(), 0);
    assert_eq!(GameErrorCode::ZombieNotReady.code(), 1);
    assert_eq!(GameErrorCode::InvalidDna.code(), 2);
    assert_eq!(GameErrorCode::InvalidSelection.code(), 3);
    assert_eq!(GameErrorCode::ArmyFull.code(), 4);
    assert_eq!(GameErrorCode::InsufficientXp.code(), 5);
    assert_eq!(GameErrorCode::InvalidBattleOutcome.code(), 6);
    assert_eq!(GameErrorCode::BattleInProgress.code(), 7);
    assert_eq!(GameErrorCode::Unauthorized.code(), 8);
    assert_eq!(GameErrorCode::ArithmeticOverflow.code(), 9);
    assert_eq!(GameErrorCode::NoEmptySlot.code(), 10);
}

#[test]
fn error_messages() {
    assert_eq!(GameErrorCode::InvalidZombieId.message(), "Invalid zombie ID");
    assert_eq!(GameErrorCode::ZombieNotReady.message(), "Zombie is not ready to fight");
    assert_eq!(GameErrorCode::InvalidDna.message(), "Invalid DNA value");
    assert_eq!(GameErrorCode::InvalidSelection.message(), "Invalid selection");
    assert_eq!(GameErrorCode::ArmyFull.message(), "Army is full");
    assert_eq!(GameErrorCode::InsufficientXp.message(), "Insufficient XP");
    assert_eq!(GameErrorCode::InvalidBattleOutcome.message(), "Invalid battle outcome");
    assert_eq!(GameErrorCode::BattleInProgress.message(), "Battle already in progress");
    assert_eq!(GameErrorCode::Unauthorized.message(), "Unauthorized access");
    assert_eq!(GameErrorCode::ArithmeticOverflow.message(), "Arithmetic overflow");
    assert_eq!(GameErrorCode::NoEmptySlot.message(), "You have reach your army limit");
}

use zombie_army::constants::MAX_ZOMBIES;
use zombie_army::errors::GameErrorCode;
use zombie_army::state::army::Army;
use zombie_army::state::army::Zombie;

fn living(n: u64) -> Zombie {
    Zombie { dna: 0x1000_0000_0000_0000 + n, last_fight: 10 * n as i64, xp: n }
}

fn full_army() -> Army {
    let mut zombies = [Zombie::empty(); MAX_ZOMBIES];
    for i in 0..MAX_ZOMBIES {
        zombies[i] = living(i as u64 + 1);
    }
    Army { owner: [3u8; 32], zombies }
}

#[test]
fn an_army_has_ten_slots() {
    assert_eq!(MAX_ZOMBIES, 10);
    assert_eq!(full_army().zombies.len(), 10);
}

#[test]
fn add_zombie_takes_slot_zero_of_an_empty_army() {
    let mut army = Army { owner: [3u8; 32], zombies: [Zombie::empty(); MAX_ZOMBIES] };
    assert_eq!(army.add_zombie(living(42)), Ok(()));
    assert_eq!(army.zombies[0], living(42));
    for i in 1..MAX_ZOMBIES {
        assert_eq!(army.zombies[i], Zombie::empty());
    }
    assert_eq!(army.owner, [3u8; 32]);
}

#[test]
fn add_zombie_on_a_full_army_fails_and_changes_nothing() {
    let mut army = full_army();
    let before = army;
    assert_eq!(army.add_zombie(living(99)), Err(GameErrorCode::NoEmptySlot));
    assert_eq!(army, before);
    assert_eq!(army.add_zombie(Zombie::empty()), Err(GameErrorCode::NoEmptySlot));
    assert_eq!(army, before);
}

#[test]
fn add_zombie_fills_the_lowest_empty_slot_first() {
    let mut army = full_army();
    army.zombies[2] = Zombie::empty();
    army.zombies[5] = Zombie::empty();
    let before = army;

    assert_eq!(army.add_zombie(living(50)), Ok(()));
    assert_eq!(army.zombies[2], living(50));
    assert_eq!(army.zombies[5], Zombie::empty());
    for i in [0usize, 1, 3, 4, 6, 7, 8, 9] {
        assert_eq!(army.zombies[i], before.zombies[i]);
    }

    assert_eq!(army.add_zombie(living(51)), Ok(()));
    assert_eq!(army.zombies[2], living(50));
    assert_eq!(army.zombies[5], living(51));

    assert_eq!(army.add_zombie(living(52)), Err(GameErrorCode::NoEmptySlot));
}

#[test]
fn add_zombie_reads_emptiness_from_the_dna_alone() {
    let mut army = full_army();
    army.zombies[7] = Zombie { dna: 0, last_fight: 123, xp: 9 };
    assert_eq!(army.add_zombie(living(60)), Ok(()));
    assert_eq!(army.zombies[7], living(60));
}

#[test]
fn add_zombie_fills_the_last_slot() {
    let mut army = full_army();
    army.zombies[9] = Zombie::empty();
    assert_eq!(army.add_zombie(living(70)), Ok(()));
    assert_eq!(army.zombies[9], living(70));
    assert_eq!(army.add_zombie(living(71)), Err(GameErrorCode::NoEmptySlot));
}

#[test]
fn add_zombie_ten_times_fills_the_army_in_order() {
    let mut army = Army { owner: [3u8; 32], zombies: [Zombie::empty(); MAX_ZOMBIES] };
    for n in 0..10u64 {
        assert_eq!(army.add_zombie(living(n + 1)), Ok(()));
        assert_eq!(army.zombies[n as usize], living(n + 1));
    }
    assert_eq!(army, full_army());
    assert_eq!(army.add_zombie(living(11)), Err(GameErrorCode::NoEmptySlot));
}

//! The three operations of the game: raising an army, fighting a battle and
//! dismissing a zombie.

use crate::constants::DNA_MARKER;
use crate::constants::MAX_CARDS;
use crate::constants::MAX_ZOMBIES;
use crate::dna::generate_dna_spec;
use crate::dna::lemma_normalize_dna_idempotent;
use crate::dna::normalize_dna_spec;
use crate::dna::Identity;
use crate::errors::GameErrorCode;
use crate::state::army::Army;
use crate::state::army::ArmyView;
use crate::state::army::Zombie;
use crate::state::army::lemma_first_empty;
use crate::state::army::lemma_first_empty_reads_dna;
use crate::state::battle::chosen_dna_spec;
use crate::state::battle::outcome_spec;
use crate::state::battle::shuffle_spec;
use crate::state::battle::Battle;
use crate::state::battle::BattleOutcome;
use crate::state::battle::BattleView;
use crate::rng::random_index_spec;
use vstd::prelude::*;

verus! {

/// The army that `init_army` raises: the owner's genesis zombie in slot 0
/// and no zombie anywhere else.
pub open spec fn fresh_army_spec(owner: Seq<u8>, now: i64) -> ArmyView {
    ArmyView {
        owner,
        zombies: Seq::new(
            MAX_ZOMBIES as nat,
            |i: int|
                if i == 0 {
                    Zombie::fresh_spec(generate_dna_spec(owner, now))
                } else {
                    Zombie::empty_spec()
                },
        ),
    }
}

/// The reason for which a battle is refused before anything changes, if
/// there is one: a slot index out of range, a fighter that is still resting,
/// or a selection out of range, looked for in this order.
pub open spec fn battle_refusal_spec(
    army: ArmyView,
    zombie_id: u8,
    selection: u8,
    now: i64,
) -> Option<GameErrorCode> {
    if zombie_id >= MAX_ZOMBIES {
        Some(GameErrorCode::InvalidZombieId)
    } else if !army.zombies[zombie_id as int].is_ready_spec(now) {
        Some(GameErrorCode::ZombieNotReady)
    } else if selection >= MAX_CARDS {
        Some(GameErrorCode::InvalidSelection)
    } else {
        None
    }
}

/// What a battle returns. A battle that is not refused is lost or won by
/// the chosen candidate; a won battle still fails when the fighter's
/// experience is at its maximum or, after that, when the army is full.
pub open spec fn battle_result_spec(
    army: ArmyView,
    zombie_id: u8,
    selection: u8,
    candidates: Seq<u64>,
    now: i64,
    tick: u64,
) -> Result<BattleOutcome, GameErrorCode> {
    match battle_refusal_spec(army, zombie_id, selection, now) {
        Some(reason) => Err(reason),
        None => if outcome_spec(chosen_dna_spec(candidates, selection, tick))
            == BattleOutcome::Lost {
            Ok(BattleOutcome::Lost)
        } else if army.zombies[zombie_id as int].xp == u64::MAX {
            Err(GameErrorCode::ArithmeticOverflow)
        } else if army.is_full() {
            Err(GameErrorCode::NoEmptySlot)
        } else {
            Ok(BattleOutcome::Won)
        },
    }
}

/// The army with the fight of slot `zombie_id` at `now` recorded.
pub open spec fn army_after_fight_spec(army: ArmyView, zombie_id: u8, now: i64) -> ArmyView {
    army.with_slot(
        zombie_id as int,
        Zombie { last_fight: now, ..army.zombies[zombie_id as int] },
    )
}

/// The army after a battle. A refused battle changes nothing. Any other
/// battle records the fight. A battle that returns victory also gives the
/// fighter one experience point and then puts a new zombie, grown from the
/// chosen candidate, into the first empty slot.
pub open spec fn army_after_battle_spec(
    army: ArmyView,
    zombie_id: u8,
    selection: u8,
    candidates: Seq<u64>,
    now: i64,
    tick: u64,
) -> ArmyView {
    if battle_refusal_spec(army, zombie_id, selection, now) is Some {
        army
    } else {
        let fought = army_after_fight_spec(army, zombie_id, now);
        if battle_result_spec(army, zombie_id, selection, candidates, now, tick) == Ok::<
            BattleOutcome,
            GameErrorCode,
        >(BattleOutcome::Won) {
            let fighter = fought.zombies[zombie_id as int];
            fought.with_slot(
                zombie_id as int,
                Zombie { xp: (fighter.xp + 1) as u64, ..fighter },
            ).with_slot(
                army.first_empty(),
                Zombie::fresh_spec(normalize_dna_spec(chosen_dna_spec(candidates, selection, tick))),
            )
        } else {
            fought
        }
    }
}

/// The battle record after a battle. A refused battle leaves it as it was.
/// Any other battle stores the shuffled candidates and the number of the
/// outcome that the chosen candidate stands for.
pub open spec fn record_after_battle_spec(
    army: ArmyView,
    battle: BattleView,
    candidates: Seq<u64>,
    now: i64,
    tick: u64,
) -> BattleView {
    if battle_refusal_spec(army, battle.zombie_id, battle.selection, now) is Some {
        battle
    } else {
        BattleView {
            shuffled_order: shuffle_spec(random_index_spec(tick, MAX_CARDS as u8), candidates),
            outcome: outcome_spec(
                chosen_dna_spec(candidates, battle.selection, tick),
            ).code_spec(),
            ..battle
        }
    }
}

/// A refused battle returns the reason of the refusal and changes nothing.
pub proof fn lemma_refused_battle_changes_nothing(
    army: ArmyView,
    zombie_id: u8,
    selection: u8,
    candidates: Seq<u64>,
    now: i64,
    tick: u64,
)
    requires
        battle_refusal_spec(army, zombie_id, selection, now) is Some,
    ensures
        battle_result_spec(army, zombie_id, selection, candidates, now, tick) == Err::<
            BattleOutcome,
            GameErrorCode,
        >(battle_refusal_spec(army, zombie_id, selection, now)->Some_0),
        army_after_battle_spec(army, zombie_id, selection, candidates, now, tick) == army,
{
}

/// A battle that is neither refused nor won, be it lost or failed after the
/// fight, records the fight at `now` and changes nothing else.
pub proof fn lemma_unrewarded_battle_records_the_fight(
    army: ArmyView,
    zombie_id: u8,
    selection: u8,
    candidates: Seq<u64>,
    now: i64,
    tick: u64,
)
    requires
        army.zombies.len() == MAX_ZOMBIES,
        battle_refusal_spec(army, zombie_id, selection, now) is None,
        battle_result_spec(army, zombie_id, selection, candidates, now, tick) != Ok::<
            BattleOutcome,
            GameErrorCode,
        >(BattleOutcome::Won),
    ensures
        ({
            let after = army_after_battle_spec(army, zombie_id, selection, candidates, now, tick);
            &&& after.owner == army.owner
            &&& after.zombies.len() == MAX_ZOMBIES
            &&& after.zombies[zombie_id as int] == (Zombie {
                last_fight: now,
                ..army.zombies[zombie_id as int]
            })
            &&& forall|i: int|
                0 <= i < MAX_ZOMBIES && i != zombie_id ==> after.zombies[i] == army.zombies[i]
        }),
{
}

/// A won battle records the fight, gives the fighter one experience point
/// and puts a fresh zombie with the normalized chosen DNA into the lowest
/// empty slot; every other slot stays as it was. Should the fighter's own
/// slot be that lowest empty slot, the new zombie takes it.
pub proof fn lemma_won_battle_rewards(
    army: ArmyView,
    zombie_id: u8,
    selection: u8,
    candidates: Seq<u64>,
    now: i64,
    tick: u64,
)
    requires
        army.zombies.len() == MAX_ZOMBIES,
        battle_result_spec(army, zombie_id, selection, candidates, now, tick) == Ok::<
            BattleOutcome,
            GameErrorCode,
        >(BattleOutcome::Won),
    ensures
        ({
            let after = army_after_battle_spec(army, zombie_id, selection, candidates, now, tick);
            let slot = army.first_empty();
            let fighter = army.zombies[zombie_id as int];
            &&& zombie_id < MAX_ZOMBIES
            &&& 0 <= slot < MAX_ZOMBIES
            &&& army.zombies[slot].dna == 0
            &&& forall|j: int| 0 <= j < slot ==> (#[trigger] army.zombies[j]).dna != 0
            &&& after.owner == army.owner
            &&& after.zombies.len() == MAX_ZOMBIES
            &&& after.zombies[slot] == Zombie::fresh_spec(
                normalize_dna_spec(chosen_dna_spec(candidates, selection, tick)),
            )
            &&& after.zombies[slot].dna & DNA_MARKER != 0
            &&& slot != zombie_id ==> after.zombies[zombie_id as int] == (Zombie {
                dna: fighter.dna,
                last_fight: now,
                xp: (fighter.xp + 1) as u64,
            })
            &&& forall|i: int|
                0 <= i < MAX_ZOMBIES && i != zombie_id && i != slot ==> after.zombies[i]
                    == army.zombies[i]
        }),
{
    lemma_first_empty(army);
    lemma_normalize_dna_idempotent(chosen_dna_spec(candidates, selection, tick));
}

/// A battle keeps a well-formed army well formed, however it ends.
pub proof fn lemma_battle_keeps_wf(
    army: ArmyView,
    zombie_id: u8,
    selection: u8,
    candidates: Seq<u64>,
    now: i64,
    tick: u64,
)
    requires
        army.wf(),
    ensures
        army_after_battle_spec(army, zombie_id, selection, candidates, now, tick).wf(),
{
    lemma_first_empty(army);
    lemma_normalize_dna_idempotent(chosen_dna_spec(candidates, selection, tick));
}

/// Tells whether two identities are the same.
pub fn same_identity(a: &Identity, b: &Identity) -> (same: bool)
    ensures
        same == (a@ == b@),
{
    let mut i: usize = 0;
    while i < 32
        invariant
            i <= 32,
            forall|j: int| 0 <= j < i ==> a@[j] == b@[j],
        decreases 32 - i,
    {
        if a[i] != b[i] {
            return false;
        }
        i += 1;
    }
    assert(a@ =~= b@);
    true
}

/// Raises the army of `owner` at `now`: the owner's genesis zombie stands in
/// slot 0 and every other slot is empty.
pub fn init_army(owner: Identity, now: i64) -> (army: Army)
    ensures
        army@ == fresh_army_spec(owner@, now),
        army.wf(),
        army@.first_empty() == 1,
{
    let mut zombies: [Zombie; MAX_ZOMBIES] = [Zombie::empty(); MAX_ZOMBIES];
    zombies[0] = Zombie::from_key(owner, now);
    let army = Army { owner, zombies };
    assert(army@.zombies =~= fresh_army_spec(owner@, now).zombies);
    assert(army@.first_empty_from(1) == 1);
    assert(army@.first_empty_from(0) == army@.first_empty_from(1));
    army
}

/// Fights one battle with the zombie in slot `battle.zombie_id`, keeping the
/// battle's record in `battle`.
///
/// Nothing changes when the battle is refused. Otherwise the fight is
/// recorded even if the battle then fails on the fighter's experience or on
/// a full army; experience and the new zombie come only with a victory.
pub fn resolve_battle_with_record(
    army: &mut Army,
    battle: &mut Battle,
    candidates: [u64; MAX_CARDS],
    now: i64,
    tick: u64,
) -> (res: Result<BattleOutcome, GameErrorCode>)
    ensures
        res == battle_result_spec(
            old(army)@,
            old(battle).zombie_id,
            old(battle).selection,
            candidates@,
            now,
            tick,
        ),
        final(army)@ == army_after_battle_spec(
            old(army)@,
            old(battle).zombie_id,
            old(battle).selection,
            candidates@,
            now,
            tick,
        ),
        final(battle)@ == record_after_battle_spec(
            old(army)@,
            old(battle)@,
            candidates@,
            now,
            tick,
        ),
        old(army).wf() ==> final(army).wf(),
{
    let zombie_id: usize = battle.zombie_id as usize;
    if zombie_id >= MAX_ZOMBIES {
        return Err(GameErrorCode::InvalidZombieId);
    }
    if !army.zombies[zombie_id].is_ready(now) {
        return Err(GameErrorCode::ZombieNotReady);
    }
    if (battle.selection as usize) >= MAX_CARDS {
        return Err(GameErrorCode::InvalidSelection);
    }
    let mut fighter: Zombie = army.zombies[zombie_id];
    fighter.set_last_fight(now);
    army.zombies[zombie_id] = fighter;
    let ghost fought = army_after_fight_spec(old(army)@, old(battle).zombie_id, now);
    assert(army@ == fought);

    battle.shuffle_dna(candidates, tick);
    let outcome: BattleOutcome = match battle.determine_battle_outcome() {
        Ok(outcome) => outcome,
        Err(reason) => {
            return Err(reason);
        },
    };
    match outcome {
        BattleOutcome::Lost => Ok(BattleOutcome::Lost),
        BattleOutcome::Won => {
            let human_dna: u64 = battle.shuffled_order[battle.selection as usize];
            let mut staged: Army = *army;
            match fighter.add_xp() {
                Ok(()) => {},
                Err(reason) => {
                    return Err(reason);
                },
            }
            staged.zombies[zombie_id] = fighter;
            proof {
                assert(staged@ == fought.with_slot(zombie_id as int, fighter));
                lemma_first_empty_reads_dna(old(army)@, staged@, 0);
            }
            match staged.add_zombie(Zombie::from_dna(human_dna)) {
                Ok(()) => {},
                Err(reason) => {
                    return Err(reason);
                },
            }
            *army = staged;
            Ok(BattleOutcome::Won)
        },
    }
}

/// Fights one battle with the zombie in slot `zombie_id` of `army`.
///
/// `candidates` are shuffled by the index drawn from `tick`, and `selection`
/// picks one of them. Nothing changes when the battle is refused. Otherwise
/// the fight is recorded at `now`, whatever follows. On victory the fighter
/// gains one experience point and a zombie grown from the chosen candidate
/// takes the first empty slot.
pub fn resolve_battle(
    army: &mut Army,
    zombie_id: u8,
    selection: u8,
    candidates: [u64; MAX_CARDS],
    now: i64,
    tick: u64,
) -> (res: Result<BattleOutcome, GameErrorCode>)
    ensures
        res == battle_result_spec(old(army)@, zombie_id, selection, candidates@, now, tick),
        final(army)@ == army_after_battle_spec(
            old(army)@,
            zombie_id,
            selection,
            candidates@,
            now,
            tick,
        ),
        old(army).wf() ==> final(army).wf(),
{
    let mut battle: Battle = Battle::new(army.owner, zombie_id, selection);
    resolve_battle_with_record(army, &mut battle, candidates, now, tick)
}

/// Dismisses the zombie in slot `zombie_id` on behalf of `requester`.
///
/// Only the owner may dismiss, and only from a slot that exists; a refused
/// request changes nothing.
pub fn remove_zombie(army: &mut Army, zombie_id: u8, requester: &Identity) -> (res: Result<
    (),
    GameErrorCode,
>)
    ensures
        requester@ != old(army).owner@ ==> res == Err::<(), GameErrorCode>(
            GameErrorCode::Unauthorized,
        ) && *final(army) == *old(army),
        requester@ == old(army).owner@ && zombie_id >= MAX_ZOMBIES ==> res == Err::<
            (),
            GameErrorCode,
        >(GameErrorCode::InvalidZombieId) && *final(army) == *old(army),
        requester@ == old(army).owner@ && zombie_id < MAX_ZOMBIES ==> res is Ok && final(army)@
            == old(army)@.with_slot(zombie_id as int, Zombie::empty_spec()),
        old(army).wf() ==> final(army).wf(),
{
    if !same_identity(&army.owner, requester) {
        return Err(GameErrorCode::Unauthorized);
    }
    if (zombie_id as usize) >= MAX_ZOMBIES {
        return Err(GameErrorCode::InvalidZombieId);
    }
    let mut zombie: Zombie = army.zombies[zombie_id as usize];
    zombie.remove();
    army.zombies[zombie_id as usize] = zombie;
    Ok(())
}

} // verus!

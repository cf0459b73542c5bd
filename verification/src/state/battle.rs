//! One battle attempt: the shuffle of the candidates and the rule that
//! decides between victory and defeat.

use crate::constants::DNA_MARKER;
use crate::constants::MAX_CARDS;
use crate::dna::Identity;
use crate::errors::GameErrorCode;
use crate::hex::first_hex_char;
use crate::hex::hex_text;
use crate::hex::leading_digit;
use crate::hex::lemma_hex_text_starts_with_leading_digit;
use crate::rng::lemma_random_index_in_range;
use crate::rng::random_index;
use crate::rng::random_index_spec;
use vstd::prelude::*;

verus! {

/// How a battle ended.
#[derive(Clone, Copy, Debug, PartialEq, Eq, Structural)]
pub enum BattleOutcome {
    Lost,
    Won,
}

impl BattleOutcome {
    /// The number that a battle record stores for the outcome.
    pub open spec fn code_spec(self) -> u8 {
        match self {
            BattleOutcome::Lost => 0,
            BattleOutcome::Won => 1,
        }
    }

    /// The number that a battle record stores for the outcome.
    pub fn code(self) -> (code: u8)
        ensures
            code == self.code_spec(),
    {
        match self {
            BattleOutcome::Lost => 0,
            BattleOutcome::Won => 1,
        }
    }
}

/// The candidates in the order that `index` selects: the candidates rotated
/// left by `index` places for an index below three, and three zeros for any
/// other index.
pub open spec fn shuffle_spec(index: u8, dna_values: Seq<u64>) -> Seq<u64>
    recommends
        dna_values.len() == MAX_CARDS,
{
    if index == 0 {
        seq![dna_values[0], dna_values[1], dna_values[2]]
    } else if index == 1 {
        seq![dna_values[1], dna_values[2], dna_values[0]]
    } else if index == 2 {
        seq![dna_values[2], dna_values[0], dna_values[1]]
    } else {
        seq![0u64, 0u64, 0u64]
    }
}

/// The outcome that a chosen DNA value stands for: defeat when its lowercase
/// hexadecimal text begins with `1`, victory otherwise.
pub open spec fn outcome_spec(chosen: u64) -> BattleOutcome {
    if hex_text(chosen as nat)[0] == '1' {
        BattleOutcome::Lost
    } else {
        BattleOutcome::Won
    }
}

/// The candidate that `selection` picks once the tick has shuffled them.
pub open spec fn chosen_dna_spec(dna_values: Seq<u64>, selection: u8, tick: u64) -> u64
    recommends
        dna_values.len() == MAX_CARDS,
        selection < MAX_CARDS,
{
    shuffle_spec(random_index_spec(tick, MAX_CARDS as u8), dna_values)[selection as int]
}

/// A battle is lost exactly when the most significant hexadecimal digit of
/// the chosen value is one.
pub proof fn lemma_outcome_reads_leading_digit(chosen: u64)
    ensures
        outcome_spec(chosen) == BattleOutcome::Lost <==> leading_digit(chosen as nat) == 1,
{
    lemma_hex_text_starts_with_leading_digit(chosen as nat);
}

/// A value in the DNA range has sixteen hexadecimal digits, so it stands
/// for defeat exactly when it is below twice the marker.
pub proof fn lemma_outcome_of_dna(dna: u64)
    requires
        dna >= DNA_MARKER,
    ensures
        leading_digit(dna as nat) == dna / DNA_MARKER,
        outcome_spec(dna) == BattleOutcome::Lost <==> dna < 2 * DNA_MARKER,
{
    lemma_outcome_reads_leading_digit(dna);
    reveal_with_fuel(leading_digit, 17);
}

/// For an index below three the shuffle is a rotation: place `i` of the
/// result holds candidate `(i + index) % 3`.
pub proof fn lemma_shuffle_rotates(index: u8, dna_values: Seq<u64>, i: int)
    requires
        dna_values.len() == MAX_CARDS,
        index < MAX_CARDS,
        0 <= i < MAX_CARDS,
    ensures
        shuffle_spec(index, dna_values).len() == MAX_CARDS,
        shuffle_spec(index, dna_values)[i] == dna_values[(i + index) % 3],
{
}

/// For an index below three the shuffle only reorders: every candidate
/// occurs in the result as often as among the candidates.
pub proof fn lemma_shuffle_permutes(index: u8, dna_values: Seq<u64>)
    requires
        dna_values.len() == MAX_CARDS,
        index < MAX_CARDS,
    ensures
        shuffle_spec(index, dna_values).to_multiset() == dna_values.to_multiset(),
{
    let a = dna_values[0];
    let b = dna_values[1];
    let c = dna_values[2];
    let none = Seq::<u64>::empty();
    assert(dna_values =~= none.push(a).push(b).push(c));
    assert(shuffle_spec(1, dna_values) =~= none.push(b).push(c).push(a));
    assert(shuffle_spec(2, dna_values) =~= none.push(c).push(a).push(b));
    broadcast use vstd::seq_lib::to_multiset_build;
    let all = none.push(a).push(b).push(c).to_multiset();
    assert(all =~= none.push(b).push(c).push(a).to_multiset());
    assert(all =~= none.push(c).push(a).push(b).to_multiset());
    if index == 0 {
        assert(shuffle_spec(0, dna_values) =~= dna_values);
    } else if index == 1 {
        assert(shuffle_spec(1, dna_values).to_multiset() == all);
    } else {
        assert(shuffle_spec(2, dna_values).to_multiset() == all);
    }
}

/// The index drawn from a tick is always below three, so the shuffle of a
/// battle only ever reorders the candidates, and the chosen value is the
/// candidate `(selection + index) % 3`.
pub proof fn lemma_drawn_shuffle_permutes(dna_values: Seq<u64>, selection: u8, tick: u64)
    requires
        dna_values.len() == MAX_CARDS,
        selection < MAX_CARDS,
    ensures
        random_index_spec(tick, MAX_CARDS as u8) < MAX_CARDS,
        shuffle_spec(random_index_spec(tick, MAX_CARDS as u8), dna_values).to_multiset()
            == dna_values.to_multiset(),
        chosen_dna_spec(dna_values, selection, tick) == dna_values[(selection + random_index_spec(
            tick,
            MAX_CARDS as u8,
        )) % 3],
{
    let index = random_index_spec(tick, MAX_CARDS as u8);
    lemma_random_index_in_range(tick, MAX_CARDS as u8);
    lemma_shuffle_permutes(index, dna_values);
    lemma_shuffle_rotates(index, dna_values, selection as int);
}

/// What a battle record is, as plain values.
#[verifier::ext_equal]
pub struct BattleView {
    pub owner: Seq<u8>,
    pub shuffled_order: Seq<u64>,
    pub zombie_id: u8,
    pub selection: u8,
    pub outcome: u8,
}

/// The record of one battle attempt. It starts with the fighter's slot and
/// the player's selection, receives the shuffled candidates, and ends with
/// the outcome.
#[derive(Clone, Copy, Debug, PartialEq)]
pub struct Battle {
    pub owner: Identity,
    pub shuffled_order: [u64; MAX_CARDS],
    pub zombie_id: u8,
    pub selection: u8,
    pub outcome: u8,
}

impl View for Battle {
    type V = BattleView;

    open spec fn view(&self) -> BattleView {
        BattleView {
            owner: self.owner@,
            shuffled_order: self.shuffled_order@,
            zombie_id: self.zombie_id,
            selection: self.selection,
            outcome: self.outcome,
        }
    }
}

impl Battle {
    /// A battle that has just been requested: nothing is shuffled and no
    /// outcome is set.
    pub fn new(owner: Identity, zombie_id: u8, selection: u8) -> (battle: Battle)
        ensures
            battle@ == (BattleView {
                owner: owner@,
                shuffled_order: seq![0u64, 0u64, 0u64],
                zombie_id,
                selection,
                outcome: 0,
            }),
    {
        let battle = Battle { owner, shuffled_order: [0, 0, 0], zombie_id, selection, outcome: 0 };
        assert(battle.shuffled_order@ =~= seq![0u64, 0u64, 0u64]);
        battle
    }

    /// The candidates in the order that `index` selects.
    pub fn permute(index: u8, dna_values: [u64; MAX_CARDS]) -> (shuffled: [u64; MAX_CARDS])
        ensures
            shuffled@ == shuffle_spec(index, dna_values@),
    {
        let shuffled: [u64; MAX_CARDS] = match index {
            0 => dna_values,
            1 => [dna_values[1], dna_values[2], dna_values[0]],
            2 => [dna_values[2], dna_values[0], dna_values[1]],
            _ => [0, 0, 0],
        };
        assert(shuffled@ =~= shuffle_spec(index, dna_values@));
        shuffled
    }

    /// The outcome that a chosen DNA value stands for.
    pub fn outcome_of(chosen: u64) -> (outcome: BattleOutcome)
        ensures
            outcome == outcome_spec(chosen),
    {
        match first_hex_char(chosen) {
            '1' => BattleOutcome::Lost,
            _ => BattleOutcome::Won,
        }
    }

    /// Shuffles the candidates by the index drawn from `tick` and stores the
    /// result in the record.
    pub fn shuffle_dna(&mut self, dna_values: [u64; MAX_CARDS], tick: u64)
        ensures
            final(self)@ == (BattleView {
                shuffled_order: shuffle_spec(
                    random_index_spec(tick, MAX_CARDS as u8),
                    dna_values@,
                ),
                ..old(self)@
            }),
    {
        let index: u8 = random_index(tick, MAX_CARDS as u8);
        self.shuffled_order = Battle::permute(index, dna_values);
    }

    /// Reads the selected candidate and stores the outcome it stands for. A
    /// selection outside the candidates is refused and nothing is stored.
    pub fn determine_battle_outcome(&mut self) -> (res: Result<BattleOutcome, GameErrorCode>)
        ensures
            old(self).selection < MAX_CARDS ==> res == Ok::<BattleOutcome, GameErrorCode>(
                outcome_spec(old(self).shuffled_order@[old(self).selection as int]),
            ) && final(self)@ == (BattleView { outcome: res->Ok_0.code_spec(), ..old(self)@ }),
            old(self).selection >= MAX_CARDS ==> res == Err::<BattleOutcome, GameErrorCode>(
                GameErrorCode::InvalidSelection,
            ) && *final(self) == *old(self),
    {
        if (self.selection as usize) >= MAX_CARDS {
            return Err(GameErrorCode::InvalidSelection);
        }
        let selected_dna: u64 = self.shuffled_order[self.selection as usize];
        let outcome: BattleOutcome = Battle::outcome_of(selected_dna);
        self.outcome = outcome.code();
        Ok(outcome)
    }
}

} // verus!

//! A player's army and the zombies in its slots.

use crate::constants::COOLDOWN_SECONDS;
use crate::constants::DNA_MARKER;
use crate::constants::MAX_ZOMBIES;
use crate::dna::generate_dna;
use crate::dna::generate_dna_spec;
use crate::dna::normalize_dna;
use crate::dna::normalize_dna_spec;
use crate::dna::Identity;
use crate::errors::GameErrorCode;
use vstd::prelude::*;

verus! {

/// One slot of an army. A slot whose `dna` is `0` holds no zombie.
#[derive(Clone, Copy, Debug, PartialEq, Eq, Structural)]
pub struct Zombie {
    pub dna: u64,
    pub last_fight: i64,
    pub xp: u64,
}

impl Zombie {
    /// The slot holds no zombie.
    pub open spec fn is_empty_spec(self) -> bool {
        self.dna == 0
    }

    /// The DNA is either the empty mark or in the DNA range.
    pub open spec fn wf(self) -> bool {
        self.dna == 0 || self.dna >= DNA_MARKER
    }

    /// The zombie has rested for a full cooldown at `now`.
    pub open spec fn is_ready_spec(self, now: i64) -> bool {
        now - self.last_fight >= COOLDOWN_SECONDS
    }

    /// The content of a slot that holds no zombie.
    pub open spec fn empty_spec() -> Zombie {
        Zombie { dna: 0, last_fight: 0, xp: 0 }
    }

    /// A zombie with the given DNA that has never fought.
    pub open spec fn fresh_spec(dna: u64) -> Zombie {
        Zombie { dna, last_fight: 0, xp: 0 }
    }

    /// The content of a slot that holds no zombie.
    pub fn empty() -> (zombie: Zombie)
        ensures
            zombie == Zombie::empty_spec(),
            zombie.is_empty_spec(),
            zombie.wf(),
    {
        Zombie { dna: 0, last_fight: 0, xp: 0 }
    }

    /// Tells whether the slot holds no zombie.
    pub fn is_empty(&self) -> (empty: bool)
        ensures
            empty == self.is_empty_spec(),
    {
        self.dna == 0
    }

    /// The genesis zombie of `owner_key`, created at `now`.
    pub fn from_key(owner_key: Identity, now: i64) -> (zombie: Zombie)
        ensures
            zombie == Zombie::fresh_spec(generate_dna_spec(owner_key@, now)),
            !zombie.is_empty_spec(),
            zombie.wf(),
    {
        let dna: u64 = Zombie::generate_dna(owner_key, now);
        Zombie { dna, last_fight: 0, xp: 0 }
    }

    /// The DNA of the genesis zombie of `owner_key`, created at `now`.
    pub fn generate_dna(owner_key: Identity, now: i64) -> (dna: u64)
        ensures
            dna == generate_dna_spec(owner_key@, now),
            dna >= DNA_MARKER,
            dna != 0,
    {
        generate_dna(&owner_key, now)
    }

    /// A zombie that has never fought, with `dna` normalized.
    pub fn from_dna(dna: u64) -> (zombie: Zombie)
        ensures
            zombie == Zombie::fresh_spec(normalize_dna_spec(dna)),
            zombie.dna & DNA_MARKER != 0,
            !zombie.is_empty_spec(),
            zombie.wf(),
    {
        let zombie_dna: u64 = normalize_dna(dna);
        Zombie { dna: zombie_dna, last_fight: 0, xp: 0 }
    }

    /// Tells whether at least a cooldown has passed since the last fight.
    pub fn is_ready(&self, now: i64) -> (ready: bool)
        ensures
            ready == self.is_ready_spec(now),
            ready <==> now - self.last_fight >= 60,
    {
        let elapsed: i128 = (now as i128) - (self.last_fight as i128);
        elapsed >= (COOLDOWN_SECONDS as i128)
    }

    /// Clears the slot.
    pub fn remove(&mut self)
        ensures
            *final(self) == Zombie::empty_spec(),
    {
        self.dna = 0;
        self.last_fight = 0;
        self.xp = 0;
    }

    /// Adds one experience point, unless the counter is at its maximum.
    pub fn add_xp(&mut self) -> (res: Result<(), GameErrorCode>)
        ensures
            old(self).xp < u64::MAX ==> res is Ok && *final(self) == (Zombie {
                xp: (old(self).xp + 1) as u64,
                ..*old(self)
            }),
            old(self).xp == u64::MAX ==> res == Err::<(), GameErrorCode>(
                GameErrorCode::ArithmeticOverflow,
            ) && *final(self) == *old(self),
    {
        match self.xp.checked_add(1) {
            Some(xp) => {
                self.xp = xp;
                Ok(())
            },
            None => Err(GameErrorCode::ArithmeticOverflow),
        }
    }

    /// Records a fight at `now`.
    pub fn set_last_fight(&mut self, now: i64)
        ensures
            *final(self) == (Zombie { last_fight: now, ..*old(self) }),
    {
        self.last_fight = now;
    }
}

/// The cooldown: a zombie that fought at `fought_at` is ready again exactly
/// from `COOLDOWN_SECONDS` later on.
pub proof fn lemma_cooldown(zombie: Zombie, fought_at: i64, now: i64)
    requires
        zombie.last_fight == fought_at,
    ensures
        zombie.is_ready_spec(now) <==> now >= fought_at + COOLDOWN_SECONDS,
        now == fought_at + COOLDOWN_SECONDS ==> zombie.is_ready_spec(now),
        now == fought_at + COOLDOWN_SECONDS - 1 ==> !zombie.is_ready_spec(now),
{
}

/// A zombie that has never fought is ready at every time from
/// `COOLDOWN_SECONDS` on.
pub proof fn lemma_fresh_zombie_is_ready(dna: u64, now: i64)
    requires
        now >= COOLDOWN_SECONDS,
    ensures
        Zombie::fresh_spec(dna).is_ready_spec(now),
{
}

/// What an army is, as plain values: its owner's identity and its slots in
/// order.
#[verifier::ext_equal]
pub struct ArmyView {
    pub owner: Seq<u8>,
    pub zombies: Seq<Zombie>,
}

impl ArmyView {
    /// The index of the first empty slot at or after `from`, or the number
    /// of slots if there is none.
    pub open spec fn first_empty_from(self, from: int) -> int
        decreases self.zombies.len() - from,
    {
        if from < 0 || from >= self.zombies.len() {
            self.zombies.len() as int
        } else if self.zombies[from].dna == 0 {
            from
        } else {
            self.first_empty_from(from + 1)
        }
    }

    /// The index of the first empty slot, or the number of slots if every
    /// slot holds a zombie.
    pub open spec fn first_empty(self) -> int {
        self.first_empty_from(0)
    }

    /// Every slot holds a zombie.
    pub open spec fn is_full(self) -> bool {
        forall|i: int| 0 <= i < self.zombies.len() ==> (#[trigger] self.zombies[i]).dna != 0
    }

    /// The army with slot `id` replaced by `zombie`.
    pub open spec fn with_slot(self, id: int, zombie: Zombie) -> ArmyView {
        ArmyView { owner: self.owner, zombies: self.zombies.update(id, zombie) }
    }

    /// There are `MAX_ZOMBIES` slots, a 32-byte owner, and every slot is well
    /// formed.
    pub open spec fn wf(self) -> bool {
        &&& self.owner.len() == 32
        &&& self.zombies.len() == MAX_ZOMBIES
        &&& forall|i: int| 0 <= i < self.zombies.len() ==> (#[trigger] self.zombies[i]).wf()
    }
}

/// What `first_empty_from` finds: an index between `from` and the number of
/// slots, with no empty slot from `from` up to it, and an empty slot at it
/// unless it is past the last slot.
pub proof fn lemma_first_empty_from(army: ArmyView, from: int)
    requires
        0 <= from <= army.zombies.len(),
    ensures
        from <= army.first_empty_from(from) <= army.zombies.len(),
        forall|j: int|
            from <= j < army.first_empty_from(from) ==> (#[trigger] army.zombies[j]).dna != 0,
        army.first_empty_from(from) < army.zombies.len() ==> army.zombies[army.first_empty_from(
            from,
        )].dna == 0,
    decreases army.zombies.len() - from,
{
    if from < army.zombies.len() && army.zombies[from].dna != 0 {
        lemma_first_empty_from(army, from + 1);
    }
}

/// The first empty slot is the lowest index whose DNA is `0`; there is none
/// exactly when the army is full.
pub proof fn lemma_first_empty(army: ArmyView)
    ensures
        0 <= army.first_empty() <= army.zombies.len(),
        forall|j: int| 0 <= j < army.first_empty() ==> (#[trigger] army.zombies[j]).dna != 0,
        army.first_empty() < army.zombies.len() ==> army.zombies[army.first_empty()].dna == 0,
        army.first_empty() == army.zombies.len() <==> army.is_full(),
{
    lemma_first_empty_from(army, 0);
}

/// Where the first empty slot is depends on the DNA values alone: two rows
/// of slots with the same DNA in every place have the same first empty slot
/// and are full together.
pub proof fn lemma_first_empty_reads_dna(a: ArmyView, b: ArmyView, from: int)
    requires
        a.zombies.len() == b.zombies.len(),
        forall|i: int| 0 <= i < a.zombies.len() ==> a.zombies[i].dna == b.zombies[i].dna,
        0 <= from <= a.zombies.len(),
    ensures
        a.first_empty_from(from) == b.first_empty_from(from),
        a.is_full() == b.is_full(),
    decreases a.zombies.len() - from,
{
    if from < a.zombies.len() && a.zombies[from].dna != 0 {
        lemma_first_empty_reads_dna(a, b, from + 1);
    }
    assert(a.is_full() == b.is_full()) by {
        if a.is_full() {
            assert forall|i: int| 0 <= i < b.zombies.len() implies (#[trigger] b.zombies[i]).dna
                != 0 by {
                assert(a.zombies[i].dna != 0);
            }
        }
        if b.is_full() {
            assert forall|i: int| 0 <= i < a.zombies.len() implies (#[trigger] a.zombies[i]).dna
                != 0 by {
                assert(b.zombies[i].dna != 0);
            }
        }
    }
}

/// One player's army: the owner's identity and a fixed row of slots. The
/// position of a slot is the zombie's id; slots never move.
#[derive(Clone, Copy, Debug, PartialEq)]
pub struct Army {
    pub owner: Identity,
    pub zombies: [Zombie; MAX_ZOMBIES],
}

impl View for Army {
    type V = ArmyView;

    open spec fn view(&self) -> ArmyView {
        ArmyView { owner: self.owner@, zombies: self.zombies@ }
    }
}

impl Army {
    /// Every slot is well formed.
    pub open spec fn wf(self) -> bool {
        self@.wf()
    }

    /// Puts `zombie` into the first empty slot, which is the one with the
    /// lowest index. A full army is left as it is.
    pub fn add_zombie(&mut self, zombie: Zombie) -> (res: Result<(), GameErrorCode>)
        ensures
            !old(self)@.is_full() ==> res is Ok && final(self)@ == old(self)@.with_slot(
                old(self)@.first_empty(),
                zombie,
            ),
            old(self)@.is_full() ==> res == Err::<(), GameErrorCode>(GameErrorCode::NoEmptySlot)
                && *final(self) == *old(self),
            res is Ok ==> 0 <= old(self)@.first_empty() < MAX_ZOMBIES,
            res is Ok ==> old(self).zombies@[old(self)@.first_empty()].dna == 0,
            res is Ok ==> forall|j: int|
                0 <= j < old(self)@.first_empty() ==> (#[trigger] old(self).zombies@[j]).dna != 0,
            old(self).wf() && zombie.wf() ==> final(self).wf(),
    {
        proof {
            lemma_first_empty(self@);
        }
        let mut i: usize = 0;
        while i < MAX_ZOMBIES
            invariant
                i <= MAX_ZOMBIES,
                *self == *old(self),
                self@.first_empty_from(i as int) == self@.first_empty(),
            decreases MAX_ZOMBIES - i,
        {
            if self.zombies[i].dna == 0 {
                proof {
                    lemma_first_empty(self@);
                }
                self.zombies[i] = zombie;
                return Ok(());
            }
            i += 1;
        }
        Err(GameErrorCode::NoEmptySlot)
    }
}

} // verus!

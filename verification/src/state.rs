//! Authoritative per-account game state: the hand, the positional field
//! units, the tomb and the field-energy pool. Each operation is the verified
//! counterpart of one state-store call of the resolution pipeline.

use vstd::prelude::*;

use crate::cards::RaceEnumValue;

verus! {

/// The id a field-unit query reports when no unit stands at the index.
pub const ABSENT_UNIT_SENTINEL: i32 = -1;

/// Count of attached energy per race.
#[derive(Clone, Copy, PartialEq, Eq, Structural, Debug)]
pub struct AttachedEnergy {
    pub undead: i32,
    pub human: i32,
    pub angel: i32,
    pub machine: i32,
    pub trent: i32,
}

impl AttachedEnergy {
    pub open spec fn wf(self) -> bool {
        &&& self.undead >= 0
        &&& self.human >= 0
        &&& self.angel >= 0
        &&& self.machine >= 0
        &&& self.trent >= 0
    }

    /// The count attached under `race`; the `Unknown` race holds nothing.
    pub open spec fn spec_count_of(self, race: RaceEnumValue) -> int {
        match race {
            RaceEnumValue::Unknown => 0,
            RaceEnumValue::Undead => self.undead as int,
            RaceEnumValue::Human => self.human as int,
            RaceEnumValue::Angel => self.angel as int,
            RaceEnumValue::Machine => self.machine as int,
            RaceEnumValue::Trent => self.trent as int,
        }
    }

    pub fn none() -> (energy: Self)
        ensures
            energy == (AttachedEnergy { undead: 0, human: 0, angel: 0, machine: 0, trent: 0 }),
    {
        AttachedEnergy { undead: 0, human: 0, angel: 0, machine: 0, trent: 0 }
    }

    /// Adds `quantity` under `race`, declining on overflow.
    pub fn add(&mut self, race: RaceEnumValue, quantity: i32) -> (ok: bool)
        requires
            old(self).wf(),
            quantity >= 0,
            race != RaceEnumValue::Unknown,
        ensures
            final(self).wf(),
            ok == (old(self).spec_count_of(race) + quantity <= i32::MAX),
            ok ==> final(self).spec_count_of(race) == old(self).spec_count_of(race) + quantity,
            !ok ==> *final(self) == *old(self),
            forall|other: RaceEnumValue| other != race ==> final(self).spec_count_of(other)
                == old(self).spec_count_of(other),
    {
        match race {
            RaceEnumValue::Undead => {
                if self.undead <= i32::MAX - quantity {
                    self.undead = self.undead + quantity;
                    true
                } else {
                    false
                }
            },
            RaceEnumValue::Human => {
                if self.human <= i32::MAX - quantity {
                    self.human = self.human + quantity;
                    true
                } else {
                    false
                }
            },
            RaceEnumValue::Angel => {
                if self.angel <= i32::MAX - quantity {
                    self.angel = self.angel + quantity;
                    true
                } else {
                    false
                }
            },
            RaceEnumValue::Machine => {
                if self.machine <= i32::MAX - quantity {
                    self.machine = self.machine + quantity;
                    true
                } else {
                    false
                }
            },
            RaceEnumValue::Trent => {
                if self.trent <= i32::MAX - quantity {
                    self.trent = self.trent + quantity;
                    true
                } else {
                    false
                }
            },
            RaceEnumValue::Unknown => false,
        }
    }
}

/// A unit standing on the field: the card it came from, its current health
/// and its attached energy.
#[derive(Clone, Copy, PartialEq, Eq, Structural, Debug)]
pub struct FieldUnit {
    pub card_id: i32,
    pub health: i32,
    pub attached_energy: AttachedEnergy,
}

impl FieldUnit {
    pub open spec fn wf(self) -> bool {
        &&& self.card_id >= 0
        &&& self.health >= 0
        &&& self.attached_energy.wf()
    }
}

/// `u` after taking `damage`: health falls by the damage, to no less than
/// zero; the unit itself stays on the field.
pub open spec fn spec_damaged_unit(u: FieldUnit, damage: int) -> FieldUnit {
    FieldUnit {
        card_id: u.card_id,
        health: if damage >= u.health { 0 } else { (u.health - damage) as i32 },
        attached_energy: u.attached_energy,
    }
}

/// `s` with its first occurrence of `x` removed, if any.
pub open spec fn remove_first(s: Seq<i32>, x: i32) -> Seq<i32>
    decreases s.len(),
{
    if s.len() == 0 {
        s
    } else if s.first() == x {
        s.drop_first()
    } else {
        seq![s.first()] + remove_first(s.drop_first(), x)
    }
}

/// Removing at the first occurrence of `x` is `remove_first`.
pub proof fn lemma_remove_at_first_occurrence(s: Seq<i32>, x: i32, i: int)
    requires
        0 <= i < s.len(),
        s[i] == x,
        forall|j: int| 0 <= j < i ==> s[j] != x,
    ensures
        s.remove(i) == remove_first(s, x),
    decreases i,
{
    if i == 0 {
        assert(s.remove(0) =~= s.drop_first());
    } else {
        lemma_remove_at_first_occurrence(s.drop_first(), x, i - 1);
        assert(s.remove(i) =~= seq![s.first()] + s.drop_first().remove(i - 1));
    }
}

/// One player's authoritative state: identity, hand, positional field units,
/// tomb, and the field-energy pool. A removed unit leaves an empty slot, so
/// the positions of the remaining units never shift.
pub struct AccountState {
    pub account_id: i32,
    pub hand: Vec<i32>,
    pub field: Vec<Option<FieldUnit>>,
    pub tomb: Vec<i32>,
    pub field_energy: i32,
}

impl AccountState {
    pub open spec fn wf(self) -> bool {
        &&& self.account_id >= 1
        &&& self.field_energy >= 0
        &&& forall|i: int| 0 <= i < self.hand@.len() ==> #[trigger] self.hand@[i] >= 0
        &&& forall|i: int|
            0 <= i < self.field@.len() ==> match #[trigger] self.field@[i] {
                Some(u) => u.wf(),
                None => true,
            }
    }

    /// Whether the card is currently in this account's hand.
    pub open spec fn spec_has_in_hand(self, card_id: i32) -> bool {
        self.hand@.contains(card_id)
    }

    /// The unit standing at a positional index, if the index is on the field
    /// and its slot is filled.
    pub open spec fn spec_unit_at(self, index: int) -> Option<FieldUnit> {
        if 0 <= index < self.field@.len() {
            self.field@[index]
        } else {
            None
        }
    }

    /// The first field index holding a unit played from `card_id`, searched
    /// from `from` on.
    pub open spec fn spec_find_unit_from(self, card_id: i32, from: int) -> Option<int>
        decreases self.field@.len() - from,
    {
        if from < 0 || from >= self.field@.len() {
            None
        } else if match self.field@[from] {
            Some(u) => u.card_id == card_id,
            None => false,
        } {
            Some(from)
        } else {
            self.spec_find_unit_from(card_id, from + 1)
        }
    }

    pub fn new(account_id: i32) -> (account: Self)
        requires
            account_id >= 1,
        ensures
            account.wf(),
            account.account_id == account_id,
            account.hand@ == Seq::<i32>::empty(),
            account.field@ == Seq::<Option<FieldUnit>>::empty(),
            account.tomb@ == Seq::<i32>::empty(),
            account.field_energy == 0,
    {
        AccountState {
            account_id,
            hand: Vec::new(),
            field: Vec::new(),
            tomb: Vec::new(),
            field_energy: 0,
        }
    }

    /// Deals the card into this account's hand.
    pub fn draw_card_to_hand(&mut self, card_id: i32)
        requires
            old(self).wf(),
            card_id >= 0,
        ensures
            final(self).wf(),
            final(self).hand@ == old(self).hand@.push(card_id),
            final(self).account_id == old(self).account_id,
            final(self).field@ == old(self).field@,
            final(self).tomb@ == old(self).tomb@,
            final(self).field_energy == old(self).field_energy,
    {
        self.hand.push(card_id);
    }

    #[verifier::loop_isolation(false)]
    pub fn hand_contains(&self, card_id: i32) -> (found: bool)
        ensures
            found == self.spec_has_in_hand(card_id),
    {
        let n = self.hand.len();
        let mut i: usize = 0;
        while i < n
            invariant
                i <= n,
                n == self.hand@.len(),
                forall|j: int| 0 <= j < i ==> self.hand@[j] != card_id,
            decreases n - i,
        {
            if self.hand[i] == card_id {
                return true;
            }
            i = i + 1;
        }
        false
    }

    /// Takes the first copy of the card out of the hand; reports whether the
    /// card was there at all, changing nothing when it was not.
    #[verifier::loop_isolation(false)]
    pub fn find_and_remove_from_hand(&mut self, card_id: i32) -> (found: bool)
        requires
            old(self).wf(),
        ensures
            final(self).wf(),
            found == old(self).spec_has_in_hand(card_id),
            found ==> final(self).hand@ == remove_first(old(self).hand@, card_id),
            !found ==> final(self).hand@ == old(self).hand@,
            final(self).account_id == old(self).account_id,
            final(self).field@ == old(self).field@,
            final(self).tomb@ == old(self).tomb@,
            final(self).field_energy == old(self).field_energy,
    {
        let n = self.hand.len();
        let mut i: usize = 0;
        while i < n
            invariant
                i <= n,
                *self == *old(self),
                n == self.hand@.len(),
                forall|j: int| 0 <= j < i ==> self.hand@[j] != card_id,
            decreases n - i,
        {
            if self.hand[i] == card_id {
                proof {
                    lemma_remove_at_first_occurrence(self.hand@, card_id, i as int);
                }
                self.hand.remove(i);
                proof {
                    assert forall|j: int| 0 <= j < self.hand@.len() implies #[trigger] self.hand@[j]
                        >= 0 by {
                        if j < i as int {
                            assert(self.hand@[j] == old(self).hand@[j]);
                        } else {
                            assert(self.hand@[j] == old(self).hand@[j + 1]);
                        }
                    }
                }
                return true;
            }
            i = i + 1;
        }
        false
    }

    /// Lays the used card into the tomb.
    pub fn add_used_card_to_tomb(&mut self, card_id: i32)
        requires
            old(self).wf(),
        ensures
            final(self).wf(),
            final(self).tomb@ == old(self).tomb@.push(card_id),
            final(self).account_id == old(self).account_id,
            final(self).hand@ == old(self).hand@,
            final(self).field@ == old(self).field@,
            final(self).field_energy == old(self).field_energy,
    {
        self.tomb.push(card_id);
    }

    /// The card id of the unit at the index, or the absence sentinel.
    pub fn find_target_unit_id_by_index(&self, index: i32) -> (unit_id: i32)
        requires
            self.wf(),
        ensures
            unit_id == match self.spec_unit_at(index as int) {
                Some(u) => u.card_id,
                None => ABSENT_UNIT_SENTINEL,
            },
    {
        if index < 0 {
            return ABSENT_UNIT_SENTINEL;
        }
        let i = index as usize;
        if i >= self.field.len() {
            return ABSENT_UNIT_SENTINEL;
        }
        match self.field[i] {
            Some(unit) => unit.card_id,
            None => ABSENT_UNIT_SENTINEL,
        }
    }

    /// The current health of the unit at the index, or the absence sentinel.
    pub fn get_current_health_point_of_field_unit_by_index(&self, index: i32) -> (health: i32)
        requires
            self.wf(),
        ensures
            health == match self.spec_unit_at(index as int) {
                Some(u) => u.health,
                None => ABSENT_UNIT_SENTINEL,
            },
            (health == ABSENT_UNIT_SENTINEL) == (self.spec_unit_at(index as int) is None),
    {
        if index < 0 {
            return ABSENT_UNIT_SENTINEL;
        }
        let i = index as usize;
        if i >= self.field.len() {
            return ABSENT_UNIT_SENTINEL;
        }
        match self.field[i] {
            Some(unit) => unit.health,
            None => ABSENT_UNIT_SENTINEL,
        }
    }

    /// Applies damage to the unit at the index. Health falls to no less than
    /// zero and the unit stays on the field; an empty or out-of-range index
    /// changes nothing.
    pub fn apply_damage_to_target_unit_index(&mut self, index: i32, damage: i32)
        requires
            old(self).wf(),
            damage >= 0,
        ensures
            final(self).wf(),
            match old(self).spec_unit_at(index as int) {
                Some(u) => final(self).field@ == old(self).field@.update(
                    index as int,
                    Some(spec_damaged_unit(u, damage as int)),
                ),
                None => final(self).field@ == old(self).field@,
            },
            final(self).account_id == old(self).account_id,
            final(self).hand@ == old(self).hand@,
            final(self).tomb@ == old(self).tomb@,
            final(self).field_energy == old(self).field_energy,
    {
        if index < 0 {
            return ;
        }
        let i = index as usize;
        if i >= self.field.len() {
            return ;
        }
        match self.field[i] {
            Some(unit) => {
                let new_health: i32 = if damage >= unit.health {
                    0
                } else {
                    unit.health - damage
                };
                self.field[i] = Some(
                    FieldUnit {
                        card_id: unit.card_id,
                        health: new_health,
                        attached_energy: unit.attached_energy,
                    },
                );
            },
            None => {
                proof {
                    assert(final(self).field@ =~= old(self).field@);
                }
            },
        }
    }

    /// Removes the unit at the index outright, leaving an empty slot; an
    /// empty or out-of-range index changes nothing.
    pub fn apply_instant_death_to_target_unit_index(&mut self, index: i32)
        requires
            old(self).wf(),
        ensures
            final(self).wf(),
            match old(self).spec_unit_at(index as int) {
                Some(u) => final(self).field@ == old(self).field@.update(index as int, None::<FieldUnit>),
                None => final(self).field@ == old(self).field@,
            },
            final(self).spec_unit_at(index as int) is None,
            final(self).account_id == old(self).account_id,
            final(self).hand@ == old(self).hand@,
            final(self).tomb@ == old(self).tomb@,
            final(self).field_energy == old(self).field_energy,
    {
        if index < 0 {
            return ;
        }
        let i = index as usize;
        if i >= self.field.len() {
            return ;
        }
        match self.field[i] {
            Some(_) => {
                self.field[i] = None;
            },
            None => {
                proof {
                    assert(final(self).field@ =~= old(self).field@);
                }
            },
        }
    }

    /// Places a freshly played unit at the end of the field.
    pub fn add_unit_to_game_field(&mut self, card_id: i32, health: i32)
        requires
            old(self).wf(),
            card_id >= 0,
            health >= 0,
        ensures
            final(self).wf(),
            final(self).field@ == old(self).field@.push(
                Some(
                    FieldUnit {
                        card_id,
                        health,
                        attached_energy: AttachedEnergy {
                            undead: 0,
                            human: 0,
                            angel: 0,
                            machine: 0,
                            trent: 0,
                        },
                    },
                ),
            ),
            final(self).account_id == old(self).account_id,
            final(self).hand@ == old(self).hand@,
            final(self).tomb@ == old(self).tomb@,
            final(self).field_energy == old(self).field_energy,
    {
        let energy = AttachedEnergy::none();
        self.field.push(Some(FieldUnit { card_id, health, attached_energy: energy }));
    }

    /// Attaches energy of the race to the first field unit played from
    /// `unit_card_id`. Declines when no such unit stands on the field or the
    /// count would overflow.
    #[verifier::loop_isolation(false)]
    pub fn attach_energy_to_game_field_unit(
        &mut self,
        unit_card_id: i32,
        race: RaceEnumValue,
        quantity: i32,
    ) -> (ok: bool)
        requires
            old(self).wf(),
            quantity >= 0,
            race != RaceEnumValue::Unknown,
        ensures
            final(self).wf(),
            match old(self).spec_find_unit_from(unit_card_id, 0) {
                Some(slot) => {
                    let u = old(self).field@[slot]->Some_0;
                    if u.attached_energy.spec_count_of(race) + quantity <= i32::MAX {
                        &&& ok
                        &&& final(self).field@.len() == old(self).field@.len()
                        &&& final(self).field@[slot] is Some
                        &&& final(self).field@[slot]->Some_0.card_id == u.card_id
                        &&& final(self).field@[slot]->Some_0.health == u.health
                        &&& final(self).field@[slot]->Some_0.attached_energy.spec_count_of(race)
                            == u.attached_energy.spec_count_of(race) + quantity
                        &&& forall|other: RaceEnumValue| other != race
                            ==> final(self).field@[slot]->Some_0.attached_energy.spec_count_of(other)
                                == u.attached_energy.spec_count_of(other)
                        &&& forall|j: int| 0 <= j < old(self).field@.len() && j != slot
                            ==> final(self).field@[j] == old(self).field@[j]
                    } else {
                        !ok && final(self).field@ == old(self).field@
                    }
                },
                None => !ok && final(self).field@ == old(self).field@,
            },
            final(self).account_id == old(self).account_id,
            final(self).hand@ == old(self).hand@,
            final(self).tomb@ == old(self).tomb@,
            final(self).field_energy == old(self).field_energy,
    {
        let n = self.field.len();
        let mut i: usize = 0;
        while i < n
            invariant
                i <= n,
                *self == *old(self),
                n == self.field@.len(),
                old(self).spec_find_unit_from(unit_card_id, 0) == old(self).spec_find_unit_from(
                    unit_card_id,
                    i as int,
                ),
            decreases n - i,
        {
            let found = match self.field[i] {
                Some(u) => u.card_id == unit_card_id,
                None => false,
            };
            if found {
                let unit = self.field[i].unwrap();
                proof {
                    assert(old(self).spec_find_unit_from(unit_card_id, i as int) == Some(i as int));
                    assert(old(self).field@[i as int] is Some);
                    assert(unit.wf());
                }
                let mut energy = unit.attached_energy;
                let ok = energy.add(race, quantity);
                if ok {
                    self.field[i] = Some(
                        FieldUnit { card_id: unit.card_id, health: unit.health, attached_energy: energy },
                    );
                    proof {
                        assert forall|j: int|
                            0 <= j < self.field@.len() implies match #[trigger] self.field@[j] {
                            Some(u) => u.wf(),
                            None => true,
                        } by {
                            if j != i as int {
                                assert(self.field@[j] == old(self).field@[j]);
                            }
                        }
                    }
                    return true;
                } else {
                    return false;
                }
            }
            i = i + 1;
            proof {
                assert(old(self).spec_find_unit_from(unit_card_id, i as int - 1)
                    == old(self).spec_find_unit_from(unit_card_id, i as int));
            }
        }
        false
    }

    /// Adds the produced amount to the field-energy pool, reporting success;
    /// an amount that would overflow the pool is declined and the pool is
    /// left as it was.
    pub fn add_field_energy_with_amount(&mut self, amount: i32) -> (ok: bool)
        requires
            old(self).wf(),
            amount >= 0,
        ensures
            final(self).wf(),
            ok == (old(self).field_energy + amount <= i32::MAX),
            ok ==> final(self).field_energy == old(self).field_energy + amount,
            !ok ==> final(self).field_energy == old(self).field_energy,
            final(self).account_id == old(self).account_id,
            final(self).hand@ == old(self).hand@,
            final(self).field@ == old(self).field@,
            final(self).tomb@ == old(self).tomb@,
    {
        if self.field_energy <= i32::MAX - amount {
            self.field_energy = self.field_energy + amount;
            true
        } else {
            false
        }
    }
}

} // verus!

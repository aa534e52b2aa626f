//! Bundles of non-negative amounts, one per unit.
use crate::key::{entries_in_order, EntityId, RegistryId, UnitKey};
use std::collections::BTreeMap;
use vstd::prelude::*;

verus! {

/// What a move transfers: an amount for each of a set of units.
pub struct Sum {
    amounts: BTreeMap<(RegistryId, EntityId), u64>,
}

impl View for Sum {
    type V = Map<UnitKey, nat>;

    closed spec fn view(&self) -> Map<UnitKey, nat> {
        Map::new(
            |k: UnitKey| self.amounts@.contains_key(k.pair()),
            |k: UnitKey| self.amounts@[k.pair()] as nat,
        )
    }
}

impl Sum {
    /// The amount of `unit` in the sum; zero where the sum does not name the unit.
    pub open spec fn amount(&self, unit: UnitKey) -> nat {
        if self@.contains_key(unit) {
            self@[unit]
        } else {
            0
        }
    }

    /// Every amount of a sum fits in 64 bits.
    pub proof fn lemma_amounts_bounded(&self)
        ensures
            forall|k: UnitKey| #[trigger] self.amount(k) <= u64::MAX,
    {
    }

    /// The sum of `amount` of `unit` and of nothing else.
    pub fn of(unit: UnitKey, amount: u64) -> (sum: Sum)
        ensures
            sum@ == Map::<UnitKey, nat>::empty().insert(unit, amount as nat),
    {
        let mut amounts: BTreeMap<(RegistryId, EntityId), u64> = BTreeMap::new();
        amounts.insert((unit.registry, unit.id), amount);
        let sum = Sum { amounts };
        assert(sum@ =~= Map::<UnitKey, nat>::empty().insert(unit, amount as nat));
        sum
    }

    /// The amount of `unit` in the sum, zero where the sum does not name it.
    pub fn amount_of(&self, unit: UnitKey) -> (amount: u64)
        ensures
            amount == self.amount(unit),
    {
        match self.amounts.get(&(unit.registry, unit.id)) {
            Some(a) => *a,
            None => 0,
        }
    }

    /// Whether the sum names `unit`.
    pub fn contains(&self, unit: UnitKey) -> (found: bool)
        ensures
            found == self@.contains_key(unit),
    {
        self.amounts.get(&(unit.registry, unit.id)).is_some()
    }

    /// The sum with `amount` more of `unit`: amounts given for one unit add up.
    pub fn unit(self, unit: UnitKey, amount: u64) -> (sum: Sum)
        requires
            self.amount(unit) + amount <= u64::MAX,
        ensures
            sum@ == self@.insert(unit, (self.amount(unit) + amount) as nat),
    {
        let held = self.amount_of(unit);
        let mut amounts = self.amounts;
        amounts.insert((unit.registry, unit.id), held + amount);
        let sum = Sum { amounts };
        assert(sum@ =~= self@.insert(unit, (self.amount(unit) + amount) as nat));
        sum
    }

    /// The entries of the sum, each unit once, in the order of the units.
    pub fn entries(&self) -> (entries: Vec<(UnitKey, u64)>)
        ensures
            forall|i: int|
                0 <= i < entries@.len() ==> self@.contains_key(#[trigger] entries@[i].0)
                    && self@[entries@[i].0] == entries@[i].1,
            forall|k: UnitKey|
                self@.contains_key(k) ==> exists|i: int|
                    0 <= i < entries@.len() && #[trigger] entries@[i].0 == k,
            forall|i: int, j: int|
                0 <= i < j < entries@.len() ==> (#[trigger] entries@[i]).0.precedes(
                    (#[trigger] entries@[j]).0,
                ),
    {
        entries_in_order(&self.amounts)
    }
}

impl Clone for Sum {
    fn clone(&self) -> (copy: Sum)
        ensures
            copy@ == self@,
    {
        let copy = Sum { amounts: self.amounts.clone() };
        assert(copy@ =~= self@);
        copy
    }
}

} // verus!

//! Signed running totals, one per unit.
use crate::key::{entries_in_order, EntityId, RegistryId, UnitKey};
use crate::sum::Sum;
use std::collections::BTreeMap;
use vstd::prelude::*;
use vstd::std_specs::cmp::PartialEqSpecImpl;
use vstd::std_specs::ops::AddSpecImpl;
use vstd::std_specs::ops::SubSpecImpl;

verus! {

/// A balance: for each unit that was ever added to it or taken from it, the
/// signed total. A unit that the balance does not name stands at zero.
#[derive(Debug)]
pub struct Balance {
    amounts: BTreeMap<(RegistryId, EntityId), i128>,
}

impl View for Balance {
    type V = Map<UnitKey, int>;

    closed spec fn view(&self) -> Map<UnitKey, int> {
        Map::new(
            |k: UnitKey| self.amounts@.contains_key(k.pair()),
            |k: UnitKey| self.amounts@[k.pair()] as int,
        )
    }
}

/// The total of `unit` in a balance, zero where the balance does not name it.
pub open spec fn total_in(balance: Map<UnitKey, int>, unit: UnitKey) -> int {
    if balance.contains_key(unit) {
        balance[unit]
    } else {
        0
    }
}

/// The amount of `unit` in a sum, zero where the sum does not name it.
pub open spec fn amount_in(sum: Map<UnitKey, nat>, unit: UnitKey) -> nat {
    if sum.contains_key(unit) {
        sum[unit]
    } else {
        0
    }
}

/// A balance after a sum was added to it: every unit of the sum is named,
/// and stands higher by the sum's amount.
pub open spec fn credited(balance: Map<UnitKey, int>, sum: Map<UnitKey, nat>) -> Map<UnitKey, int> {
    Map::new(
        |k: UnitKey| balance.contains_key(k) || sum.contains_key(k),
        |k: UnitKey| total_in(balance, k) + amount_in(sum, k),
    )
}

/// A balance after a sum was taken from it: every unit of the sum is named,
/// and stands lower by the sum's amount.
pub open spec fn debited(balance: Map<UnitKey, int>, sum: Map<UnitKey, nat>) -> Map<UnitKey, int> {
    Map::new(
        |k: UnitKey| balance.contains_key(k) || sum.contains_key(k),
        |k: UnitKey| total_in(balance, k) - amount_in(sum, k),
    )
}

/// Whether every total of `balance` with `sum` added fits the 128-bit accumulator.
pub open spec fn credit_fits(balance: Map<UnitKey, int>, sum: Map<UnitKey, nat>) -> bool {
    forall|k: UnitKey| #[trigger]
        sum.contains_key(k) ==> total_in(balance, k) + sum[k] <= i128::MAX
}

/// Whether every total of `balance` with `sum` taken away fits the 128-bit accumulator.
pub open spec fn debit_fits(balance: Map<UnitKey, int>, sum: Map<UnitKey, nat>) -> bool {
    forall|k: UnitKey| #[trigger]
        sum.contains_key(k) ==> total_in(balance, k) - sum[k] >= i128::MIN
}

/// Whether `entries` lists `balance`: every unit of the balance once, with
/// its total, in the order of the units.
pub open spec fn lists(entries: Seq<(UnitKey, int)>, balance: Map<UnitKey, int>) -> bool {
    &&& forall|i: int|
        0 <= i < entries.len() ==> balance.contains_key(#[trigger] entries[i].0)
            && balance[entries[i].0] == entries[i].1
    &&& forall|k: UnitKey|
        balance.contains_key(k) ==> exists|i: int|
            0 <= i < entries.len() && #[trigger] entries[i].0 == k
    &&& forall|i: int, j: int|
        0 <= i < j < entries.len() ==> (#[trigger] entries[i]).0.precedes((#[trigger] entries[j]).0)
}

/// A balance has one listing and no other.
pub proof fn lemma_one_listing(
    first: Seq<(UnitKey, int)>,
    second: Seq<(UnitKey, int)>,
    balance: Map<UnitKey, int>,
)
    requires
        lists(first, balance),
        lists(second, balance),
    ensures
        first == second,
    decreases first.len(),
{
    if first.len() == 0 {
        if second.len() > 0 {
            assert(balance.contains_key(second[0].0));
        }
        assert(first =~= second);
    } else {
        let top = first.last().0;
        assert(balance.contains_key(first[first.len() - 1].0));
        let j = choose|j: int| 0 <= j < second.len() && #[trigger] second[j].0 == top;
        if j != second.len() - 1 {
            let above = second.last().0;
            assert(second[j].0.precedes(second[second.len() - 1].0));
            assert(balance.contains_key(second[second.len() - 1].0));
            let i = choose|i: int| 0 <= i < first.len() && #[trigger] first[i].0 == above;
            if i != first.len() - 1 {
                assert(first[i].0.precedes(first[first.len() - 1].0));
            }
        }
        let rest = balance.remove(top);
        assert forall|k: UnitKey| rest.contains_key(k) implies exists|i: int|
            0 <= i < first.drop_last().len() && #[trigger] first.drop_last()[i].0 == k by {
            let i = choose|i: int| 0 <= i < first.len() && #[trigger] first[i].0 == k;
            assert(first.drop_last()[i].0 == k);
        }
        assert forall|k: UnitKey| rest.contains_key(k) implies exists|i: int|
            0 <= i < second.drop_last().len() && #[trigger] second.drop_last()[i].0 == k by {
            let i = choose|i: int| 0 <= i < second.len() && #[trigger] second[i].0 == k;
            assert(second.drop_last()[i].0 == k);
        }
        assert forall|i: int| 0 <= i < first.drop_last().len() implies rest.contains_key(
            #[trigger] first.drop_last()[i].0,
        ) && rest[first.drop_last()[i].0] == first.drop_last()[i].1 by {
            assert(first[i].0.precedes(first[first.len() - 1].0));
        }
        assert forall|i: int| 0 <= i < second.drop_last().len() implies rest.contains_key(
            #[trigger] second.drop_last()[i].0,
        ) && rest[second.drop_last()[i].0] == second.drop_last()[i].1 by {
            assert(second[i].0.precedes(second[second.len() - 1].0));
        }
        lemma_one_listing(first.drop_last(), second.drop_last(), rest);
        assert(first.last() == second.last());
        assert(first =~= first.drop_last().push(first.last()));
        assert(second =~= second.drop_last().push(second.last()));
    }
}

impl Balance {
    /// The total of `unit`, zero where the balance does not name it.
    pub open spec fn total(&self, unit: UnitKey) -> int {
        total_in(self@, unit)
    }

    /// Every total of a balance fits the 128-bit accumulator.
    pub proof fn lemma_totals_bounded(&self)
        ensures
            forall|k: UnitKey| i128::MIN <= #[trigger] self.total(k) <= i128::MAX,
    {
    }

    /// The balance that names no unit.
    pub fn new() -> (balance: Balance)
        ensures
            balance@ == Map::<UnitKey, int>::empty(),
    {
        let balance = Balance { amounts: BTreeMap::new() };
        assert(balance@ =~= Map::<UnitKey, int>::empty());
        balance
    }

    /// The total of `unit`, zero where the balance does not name it.
    pub fn total_of(&self, unit: UnitKey) -> (total: i128)
        ensures
            total == self.total(unit),
    {
        match self.amounts.get(&(unit.registry, unit.id)) {
            Some(t) => *t,
            None => 0,
        }
    }

    /// Whether the balance names `unit`.
    pub fn contains(&self, unit: UnitKey) -> (found: bool)
        ensures
            found == self@.contains_key(unit),
    {
        self.amounts.get(&(unit.registry, unit.id)).is_some()
    }

    /// The entries of the balance, each unit once, in the order of the units.
    pub fn entries(&self) -> (entries: Vec<(UnitKey, i128)>)
        ensures
            forall|i: int|
                0 <= i < entries@.len() ==> self@.contains_key(#[trigger] entries@[i].0)
                    && self@[entries@[i].0] == entries@[i].1,
            forall|k: UnitKey|
                self@.contains_key(k) ==> exists|i: int|
                    0 <= i < entries@.len() && #[trigger] entries@[i].0 == k,
            forall|i: int, j: int|
                0 <= i < j < entries@.len() ==> (#[trigger] entries@[i]).0.precedes(
                    (#[trigger] entries@[j]).0,
                ),
    {
        entries_in_order(&self.amounts)
    }

    /// The balance's debug text: its entries in the order of the units, each
    /// unit by its id.
    pub fn debug_text(&self) -> (text: String)
        ensures
            exists|entries: Seq<(UnitKey, int)>|
                lists(entries, self@) && text@ == crate::text::balance_text(entries),
    {
        let entries = self.entries();
        let ghost listed = entries@.map_values(|e: (UnitKey, i128)| (e.0, e.1 as int));
        proof {
            assert forall|k: UnitKey| self@.contains_key(k) implies exists|i: int|
                0 <= i < listed.len() && #[trigger] listed[i].0 == k by {
                let i = choose|i: int| 0 <= i < entries@.len() && #[trigger] entries@[i].0 == k;
                assert(listed[i].0 == k);
            }
            assert forall|i: int, j: int| 0 <= i < j < listed.len() implies (
            #[trigger] listed[i]).0.precedes((#[trigger] listed[j]).0) by {
                assert(entries@[i].0.precedes(entries@[j].0));
            }
            assert(lists(listed, self@));
        }
        crate::text::balance_debug_text(&entries)
    }

    /// Folds `rhs` into the balance with `amount_op`: for each unit of `rhs`
    /// the total becomes what `amount_op` makes of the total so far (zero
    /// where the balance did not name the unit) and the amount in `rhs`.
    /// Units that `rhs` does not name stay as they are.
    pub fn operation<F: Fn(i128, u64) -> i128>(&mut self, rhs: &Sum, amount_op: F)
        requires
            forall|k: UnitKey| #[trigger]
                rhs@.contains_key(k) ==> call_requires(
                    amount_op,
                    (old(self).total(k) as i128, rhs@[k] as u64),
                ),
        ensures
            final(self)@.dom() == old(self)@.dom().union(rhs@.dom()),
            forall|k: UnitKey| #[trigger]
                rhs@.contains_key(k) ==> call_ensures(
                    amount_op,
                    (old(self).total(k) as i128, rhs@[k] as u64),
                    final(self)@[k] as i128,
                ),
            forall|k: UnitKey|
                !rhs@.contains_key(k) && old(self)@.contains_key(k) ==> #[trigger] final(self)@[k]
                    == old(self)@[k],
            forall|k: UnitKey| #[trigger]
                rhs@.contains_key(k) ==> i128::MIN <= final(self)@[k] <= i128::MAX,
    {
        let entries = rhs.entries();
        let mut i: usize = 0;
        while i < entries.len()
            invariant
                0 <= i <= entries@.len(),
                forall|j: int|
                    0 <= j < entries@.len() ==> rhs@.contains_key(#[trigger] entries@[j].0)
                        && rhs@[entries@[j].0] == entries@[j].1,
                forall|a: int, b: int|
                    0 <= a < b < entries@.len() ==> (#[trigger] entries@[a]).0.precedes(
                        (#[trigger] entries@[b]).0,
                    ),
                forall|k: UnitKey| #[trigger]
                    rhs@.contains_key(k) ==> call_requires(
                        amount_op,
                        (old(self).total(k) as i128, rhs@[k] as u64),
                    ),
                forall|j: int|
                    0 <= j < i ==> self@.contains_key(#[trigger] entries@[j].0) && call_ensures(
                        amount_op,
                        (old(self).total(entries@[j].0) as i128, entries@[j].1),
                        self@[entries@[j].0] as i128,
                    ),
                forall|k: UnitKey|
                    (forall|j: int| 0 <= j < i ==> #[trigger] entries@[j].0 != k) ==> (
                    #[trigger] self@.contains_key(k)) == old(self)@.contains_key(k) && self@[k]
                        == old(self)@[k],
            decreases entries@.len() - i,
        {
            let unit = entries[i].0;
            let amount = entries[i].1;
            let ghost before = self@;
            proof {
                assert forall|j: int| 0 <= j < i implies #[trigger] entries@[j].0 != unit by {
                    assert(entries@[j].0.precedes(entries@[i as int].0));
                }
                assert(rhs@.contains_key(unit));
                old(self).lemma_totals_bounded();
            }
            let held = self.total_of(unit);
            assert(held == old(self).total(unit));
            let next = amount_op(held, amount);
            self.amounts.insert((unit.registry, unit.id), next);
            proof {
                assert(self@ =~= before.insert(unit, next as int));
                assert forall|j: int| 0 <= j < i + 1 implies self@.contains_key(
                    #[trigger] entries@[j].0,
                ) && call_ensures(
                    amount_op,
                    (old(self).total(entries@[j].0) as i128, entries@[j].1),
                    self@[entries@[j].0] as i128,
                ) by {
                    if j < i {
                        assert(entries@[j].0.precedes(entries@[i as int].0));
                        assert(before.contains_key(entries@[j].0));
                    }
                }
                assert forall|k: UnitKey|
                    (forall|j: int| 0 <= j < i + 1 ==> #[trigger] entries@[j].0 != k) implies (
                #[trigger] self@.contains_key(k)) == old(self)@.contains_key(k) && self@[k] == old(
                    self,
                )@[k] by {
                    assert(entries@[i as int].0 != k);
                    assert(forall|j: int| 0 <= j < i ==> #[trigger] entries@[j].0 != k);
                }
            }
            i = i + 1;
        }
        proof {
            self.lemma_totals_bounded();
            assert forall|k: UnitKey| #[trigger] rhs@.contains_key(k) implies call_ensures(
                amount_op,
                (old(self).total(k) as i128, rhs@[k] as u64),
                self@[k] as i128,
            ) && self@.contains_key(k) by {
                let j = choose|j: int| 0 <= j < entries@.len() && #[trigger] entries@[j].0 == k;
                assert(self@.contains_key(entries@[j].0));
            }
            assert forall|k: UnitKey| !rhs@.contains_key(k) implies (#[trigger] self@.contains_key(k))
                == old(self)@.contains_key(k) && self@[k] == old(self)@[k] by {
                assert(forall|j: int| 0 <= j < entries@.len() ==> #[trigger] entries@[j].0 != k);
            }
            assert(self@.dom() =~= old(self)@.dom().union(rhs@.dom()));
        }
    }

    /// Whether `sum` can be added: no total would leave the accumulator's range.
    pub fn can_add(&self, sum: &Sum) -> (fits: bool)
        ensures
            fits == credit_fits(self@, sum@),
    {
        let entries = sum.entries();
        let mut i: usize = 0;
        while i < entries.len()
            invariant
                0 <= i <= entries@.len(),
                forall|j: int|
                    0 <= j < entries@.len() ==> sum@.contains_key(#[trigger] entries@[j].0)
                        && sum@[entries@[j].0] == entries@[j].1,
                forall|j: int|
                    0 <= j < i ==> self.total((#[trigger] entries@[j]).0) + entries@[j].1
                        <= i128::MAX,
            decreases entries@.len() - i,
        {
            let held = self.total_of(entries[i].0);
            let amount = entries[i].1 as i128;
            if held > i128::MAX - amount {
                assert(sum@.contains_key(entries@[i as int].0));
                return false;
            }
            i = i + 1;
        }
        proof {
            assert forall|k: UnitKey| #[trigger] sum@.contains_key(k) implies total_in(self@, k)
                + sum@[k] <= i128::MAX by {
                let j = choose|j: int| 0 <= j < entries@.len() && #[trigger] entries@[j].0 == k;
                assert(self.total(entries@[j].0) + entries@[j].1 <= i128::MAX);
            }
        }
        true
    }

    /// Whether `sum` can be taken away: no total would leave the accumulator's range.
    pub fn can_sub(&self, sum: &Sum) -> (fits: bool)
        ensures
            fits == debit_fits(self@, sum@),
    {
        let entries = sum.entries();
        let mut i: usize = 0;
        while i < entries.len()
            invariant
                0 <= i <= entries@.len(),
                forall|j: int|
                    0 <= j < entries@.len() ==> sum@.contains_key(#[trigger] entries@[j].0)
                        && sum@[entries@[j].0] == entries@[j].1,
                forall|j: int|
                    0 <= j < i ==> self.total((#[trigger] entries@[j]).0) - entries@[j].1
                        >= i128::MIN,
            decreases entries@.len() - i,
        {
            let held = self.total_of(entries[i].0);
            let amount = entries[i].1 as i128;
            if held < i128::MIN + amount {
                assert(sum@.contains_key(entries@[i as int].0));
                return false;
            }
            i = i + 1;
        }
        proof {
            assert forall|k: UnitKey| #[trigger] sum@.contains_key(k) implies total_in(self@, k)
                - sum@[k] >= i128::MIN by {
                let j = choose|j: int| 0 <= j < entries@.len() && #[trigger] entries@[j].0 == k;
                assert(self.total(entries@[j].0) - entries@[j].1 >= i128::MIN);
            }
        }
        true
    }

    /// Adds `sum`: every unit of `sum` stands higher by its amount, and is
    /// named from now on; a unit that was not named before starts from zero.
    pub fn add_assign(&mut self, sum: &Sum)
        requires
            credit_fits(old(self)@, sum@),
        ensures
            final(self)@ == credited(old(self)@, sum@),
    {
        let raise = |total: i128, amount: u64| -> (raised: i128)
            requires
                total + amount <= i128::MAX,
            ensures
                raised == total + amount,
            { total + amount as i128 };
        proof {
            sum.lemma_amounts_bounded();
            assert forall|k: UnitKey| #[trigger] sum@.contains_key(k) implies call_requires(
                raise,
                (self.total(k) as i128, sum@[k] as u64),
            ) by {
                self.lemma_totals_bounded();
                assert(sum.amount(k) == sum@[k]);
            }
        }
        self.operation(sum, raise);
        proof {
            old(self).lemma_totals_bounded();
            self.lemma_totals_bounded();
            assert forall|k: UnitKey| #[trigger] sum@.contains_key(k) implies self@[k] == total_in(
                old(self)@,
                k,
            ) + sum@[k] by {
                assert(sum.amount(k) == sum@[k]);
                assert(self@.dom().contains(k));
                assert(self.total(k) == self@[k]);
            }
            assert(self@ =~= credited(old(self)@, sum@));
        }
    }

    /// Takes `sum` away: every unit of `sum` stands lower by its amount, and
    /// is named from now on; a unit that was not named before starts from zero.
    pub fn sub_assign(&mut self, sum: &Sum)
        requires
            debit_fits(old(self)@, sum@),
        ensures
            final(self)@ == debited(old(self)@, sum@),
    {
        let lower = |total: i128, amount: u64| -> (lowered: i128)
            requires
                total - amount >= i128::MIN,
            ensures
                lowered == total - amount,
            { total - amount as i128 };
        proof {
            sum.lemma_amounts_bounded();
            assert forall|k: UnitKey| #[trigger] sum@.contains_key(k) implies call_requires(
                lower,
                (self.total(k) as i128, sum@[k] as u64),
            ) by {
                self.lemma_totals_bounded();
                assert(sum.amount(k) == sum@[k]);
            }
        }
        self.operation(sum, lower);
        proof {
            old(self).lemma_totals_bounded();
            self.lemma_totals_bounded();
            assert forall|k: UnitKey| #[trigger] sum@.contains_key(k) implies self@[k] == total_in(
                old(self)@,
                k,
            ) - sum@[k] by {
                assert(sum.amount(k) == sum@[k]);
                assert(self@.dom().contains(k));
                assert(self.total(k) == self@[k]);
            }
            assert(self@ =~= debited(old(self)@, sum@));
        }
    }
}

impl Clone for Balance {
    fn clone(&self) -> (copy: Balance)
        ensures
            copy@ == self@,
    {
        let copy = Balance { amounts: self.amounts.clone() };
        assert(copy@ =~= self@);
        copy
    }
}

impl core::ops::Add<&Sum> for Balance {
    type Output = Balance;

    /// The balance with `sum` added; see `add_assign`.
    fn add(self, sum: &Sum) -> (result: Balance)
        ensures
            result@ == credited(self@, sum@),
    {
        let mut result = self;
        result.add_assign(sum);
        result
    }
}

impl AddSpecImpl<&Sum> for Balance {
    open spec fn obeys_add_spec() -> bool {
        false
    }

    open spec fn add_req(self, sum: &Sum) -> bool {
        credit_fits(self@, sum@)
    }

    open spec fn add_spec(self, sum: &Sum) -> Balance {
        arbitrary()
    }
}

impl core::ops::Sub<&Sum> for Balance {
    type Output = Balance;

    /// The balance with `sum` taken away; see `sub_assign`.
    fn sub(self, sum: &Sum) -> (result: Balance)
        ensures
            result@ == debited(self@, sum@),
    {
        let mut result = self;
        result.sub_assign(sum);
        result
    }
}

impl SubSpecImpl<&Sum> for Balance {
    open spec fn obeys_sub_spec() -> bool {
        false
    }

    open spec fn sub_req(self, sum: &Sum) -> bool {
        debit_fits(self@, sum@)
    }

    open spec fn sub_spec(self, sum: &Sum) -> Balance {
        arbitrary()
    }
}

impl PartialEq for Balance {
    /// Two balances are equal where they name the same units with the same totals.
    fn eq(&self, other: &Balance) -> (equal: bool) {
        proof {
            broadcast use vstd::laws_cmp::group_laws_cmp;
            broadcast use vstd::std_specs::btree::group_btree_axioms;
            assert(vstd::std_specs::btree::key_obeys_cmp_spec::<(RegistryId, EntityId)>());
            if self@ == other@ {
                assert forall|p: (RegistryId, EntityId)| self.amounts@.contains_key(p)
                    == other.amounts@.contains_key(p) by {
                    let k = UnitKey::of_pair(p);
                    assert(self@.contains_key(k) == other@.contains_key(k));
                }
                assert(self.amounts@.dom() =~= other.amounts@.dom());
            }
        }
        if self.amounts.len() != other.amounts.len() {
            return false;
        }
        let entries = self.entries();
        let mut i: usize = 0;
        while i < entries.len()
            invariant
                0 <= i <= entries@.len(),
                forall|j: int|
                    0 <= j < entries@.len() ==> self@.contains_key(#[trigger] entries@[j].0)
                        && self@[entries@[j].0] == entries@[j].1,
                forall|j: int|
                    0 <= j < i ==> other@.contains_key(#[trigger] entries@[j].0)
                        && other@[entries@[j].0] == entries@[j].1,
            decreases entries@.len() - i,
        {
            if !other.contains(entries[i].0) || other.total_of(entries[i].0) != entries[i].1 {
                return false;
            }
            i = i + 1;
        }
        proof {
            assert forall|k: UnitKey| self@.contains_key(k) implies other@.contains_key(k)
                && other@[k] == self@[k] by {
                let j = choose|j: int| 0 <= j < entries@.len() && #[trigger] entries@[j].0 == k;
                assert(other@.contains_key(entries@[j].0));
            }
            assert forall|p: (RegistryId, EntityId)|
                self.amounts@.contains_key(p) implies other.amounts@.contains_key(p) by {
                let k = UnitKey::of_pair(p);
                assert(self@.contains_key(k));
            }
            assert(self.amounts@.dom().subset_of(other.amounts@.dom()));
            vstd::set_lib::lemma_subset_equality(self.amounts@.dom(), other.amounts@.dom());
            assert(self@ =~= other@);
        }
        true
    }
}

impl PartialEqSpecImpl for Balance {
    open spec fn obeys_eq_spec() -> bool {
        true
    }

    open spec fn eq_spec(&self, other: &Balance) -> bool {
        self@ == other@
    }
}

/// Adding a sum to the empty balance gives the sum's own amounts, and taking
/// it away gives their negatives.
pub proof fn lemma_first_sum(sum: Map<UnitKey, nat>)
    ensures
        credited(Map::empty(), sum) == Map::new(
            |k: UnitKey| sum.contains_key(k),
            |k: UnitKey| sum[k] as int,
        ),
        debited(Map::empty(), sum) == Map::new(
            |k: UnitKey| sum.contains_key(k),
            |k: UnitKey| -(sum[k] as int),
        ),
{
    assert(credited(Map::empty(), sum) =~= Map::new(
        |k: UnitKey| sum.contains_key(k),
        |k: UnitKey| sum[k] as int,
    ));
    assert(debited(Map::empty(), sum) =~= Map::new(
        |k: UnitKey| sum.contains_key(k),
        |k: UnitKey| -(sum[k] as int),
    ));
}

/// Two sums added one after the other put every unit at its old total plus
/// both amounts, whichever of the two is added first.
pub proof fn lemma_two_sums(balance: Map<UnitKey, int>, first: Map<UnitKey, nat>, second: Map<
    UnitKey,
    nat,
>)
    ensures
        forall|k: UnitKey| #[trigger]
            total_in(credited(credited(balance, first), second), k) == total_in(balance, k)
                + amount_in(first, k) + amount_in(second, k),
        credited(credited(balance, first), second) == credited(credited(balance, second), first),
{
    assert(credited(credited(balance, first), second) =~= credited(
        credited(balance, second),
        first,
    ));
}

/// A sum taken away after it was added leaves every total where it was.
pub proof fn lemma_add_then_sub(balance: Map<UnitKey, int>, sum: Map<UnitKey, nat>)
    ensures
        forall|k: UnitKey| #[trigger]
            total_in(debited(credited(balance, sum), sum), k) == total_in(balance, k),
{
}

} // verus!

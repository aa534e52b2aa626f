//! Identities of registries and of the entities registered in them.
use std::cmp::Ordering;
use std::collections::BTreeMap;
use vstd::prelude::*;
use vstd::std_specs::cmp::OrdSpec;
use vstd::std_specs::cmp::PartialOrdSpecImpl;
use vstd::std_specs::iter::IteratorSpec;

verus! {

/// Identifies one registry among all the registries of a process.
pub type RegistryId = u64;

/// Identifies one entity among those of its kind in one registry. Ids are
/// dense: the n-th entity of a kind that a registry creates has id n - 1.
pub type EntityId = usize;

/// Handle of an account: the registry that created it and its id there.
#[derive(Clone, Copy, Debug, PartialEq, Eq, Structural, Ord, Hash)]
pub struct AccountKey {
    pub registry: RegistryId,
    pub id: EntityId,
}

/// Handle of a unit: the registry that created it and its id there.
#[derive(Clone, Copy, Debug, PartialEq, Eq, Structural, Ord, Hash)]
pub struct UnitKey {
    pub registry: RegistryId,
    pub id: EntityId,
}

/// Handle of a move: the registry that created it and its id there.
#[derive(Clone, Copy, Debug, PartialEq, Eq, Structural, Ord, Hash)]
pub struct MoveKey {
    pub registry: RegistryId,
    pub id: EntityId,
}

/// Issues registry identifiers, each one once: the source of the identity
/// of books that are created independently of one another.
pub struct Registrar {
    next: RegistryId,
}

impl Registrar {
    /// How many identifiers were issued so far. They are the numbers below it.
    pub closed spec fn issued(&self) -> nat {
        self.next as nat
    }

    /// A registrar that has issued nothing yet.
    pub fn new() -> (registrar: Registrar)
        ensures
            registrar.issued() == 0,
    {
        Registrar { next: 0 }
    }

    /// Issues the next identifier: the number of those issued before, so it
    /// differs from each of them. `None` once all 64-bit numbers but the
    /// last are used up; the registrar then stays as it is.
    pub fn issue(&mut self) -> (id: Option<RegistryId>)
        ensures
            old(self).issued() < u64::MAX ==> id == Some(old(self).issued() as RegistryId)
                && final(self).issued() == old(self).issued() + 1,
            old(self).issued() >= u64::MAX ==> id.is_none() && final(self).issued() == old(
                self,
            ).issued(),
    {
        if self.next < u64::MAX {
            let id = self.next;
            self.next = self.next + 1;
            Some(id)
        } else {
            None
        }
    }

    /// What a registrar issues next differs from what it issues at any later
    /// time: no identifier is issued twice.
    pub proof fn lemma_issued_once(&self, later: &Registrar)
        requires
            self.issued() < later.issued() < u64::MAX,
        ensures
            self.issued() as RegistryId != later.issued() as RegistryId,
    {
    }
}

impl AccountKey {
    /// The account's debug text: its id and nothing else.
    pub fn debug_text(&self) -> (text: String)
        ensures
            text@ == crate::text::entity_text("Account"@, self.id as nat),
    {
        crate::text::entity_debug_text("Account", self.id as u64)
    }
}

impl MoveKey {
    /// The move's debug text: its id and nothing else.
    pub fn debug_text(&self) -> (text: String)
        ensures
            text@ == crate::text::entity_text("Move"@, self.id as nat),
    {
        crate::text::entity_debug_text("Move", self.id as u64)
    }
}

impl UnitKey {
    /// The unit's debug text: its id and nothing else.
    pub fn debug_text(&self) -> (text: String)
        ensures
            text@ == crate::text::entity_text("Unit"@, self.id as nat),
    {
        crate::text::entity_debug_text("Unit", self.id as u64)
    }

    /// The key as the pair by which units are ordered: registry first, id second.
    pub open spec fn pair(self) -> (RegistryId, EntityId) {
        (self.registry, self.id)
    }

    /// The unit key that a pair stands for.
    pub open spec fn of_pair(p: (RegistryId, EntityId)) -> UnitKey {
        UnitKey { registry: p.0, id: p.1 }
    }

    /// Whether `self` comes strictly before `other`: by registry, then by id.
    pub open spec fn precedes(self, other: UnitKey) -> bool {
        self.registry < other.registry || (self.registry == other.registry && self.id < other.id)
    }
}

impl PartialOrd for AccountKey {
    /// Keys are ordered by registry first and by id second.
    fn partial_cmp(&self, other: &AccountKey) -> (order: Option<Ordering>) {
        if self.registry < other.registry {
            Some(Ordering::Less)
        } else if self.registry > other.registry {
            Some(Ordering::Greater)
        } else if self.id < other.id {
            Some(Ordering::Less)
        } else if self.id > other.id {
            Some(Ordering::Greater)
        } else {
            Some(Ordering::Equal)
        }
    }
}

impl PartialOrdSpecImpl for AccountKey {
    open spec fn obeys_partial_cmp_spec() -> bool {
        true
    }

    open spec fn partial_cmp_spec(&self, other: &AccountKey) -> Option<Ordering> {
        if (self.registry < other.registry || (self.registry == other.registry && self.id < other.id)) {
            Some(Ordering::Less)
        } else if (other.registry < self.registry || (other.registry == self.registry && other.id < self.id)) {
            Some(Ordering::Greater)
        } else {
            Some(Ordering::Equal)
        }
    }
}

impl PartialOrd for UnitKey {
    /// Keys are ordered by registry first and by id second.
    fn partial_cmp(&self, other: &UnitKey) -> (order: Option<Ordering>) {
        if self.registry < other.registry {
            Some(Ordering::Less)
        } else if self.registry > other.registry {
            Some(Ordering::Greater)
        } else if self.id < other.id {
            Some(Ordering::Less)
        } else if self.id > other.id {
            Some(Ordering::Greater)
        } else {
            Some(Ordering::Equal)
        }
    }
}

impl PartialOrdSpecImpl for UnitKey {
    open spec fn obeys_partial_cmp_spec() -> bool {
        true
    }

    open spec fn partial_cmp_spec(&self, other: &UnitKey) -> Option<Ordering> {
        if self.precedes(*other) {
            Some(Ordering::Less)
        } else if other.precedes(*self) {
            Some(Ordering::Greater)
        } else {
            Some(Ordering::Equal)
        }
    }
}

impl PartialOrd for MoveKey {
    /// Keys are ordered by registry first and by id second.
    fn partial_cmp(&self, other: &MoveKey) -> (order: Option<Ordering>) {
        if self.registry < other.registry {
            Some(Ordering::Less)
        } else if self.registry > other.registry {
            Some(Ordering::Greater)
        } else if self.id < other.id {
            Some(Ordering::Less)
        } else if self.id > other.id {
            Some(Ordering::Greater)
        } else {
            Some(Ordering::Equal)
        }
    }
}

impl PartialOrdSpecImpl for MoveKey {
    open spec fn obeys_partial_cmp_spec() -> bool {
        true
    }

    open spec fn partial_cmp_spec(&self, other: &MoveKey) -> Option<Ordering> {
        if (self.registry < other.registry || (self.registry == other.registry && self.id < other.id)) {
            Some(Ordering::Less)
        } else if (other.registry < self.registry || (other.registry == self.registry && other.id < self.id)) {
            Some(Ordering::Greater)
        } else {
            Some(Ordering::Equal)
        }
    }
}

/// The entries of a map keyed by the pairs of unit keys, each key once, in
/// the order of the units.
pub(crate) fn entries_in_order<V: Copy>(amounts: &BTreeMap<(RegistryId, EntityId), V>) -> (entries:
    Vec<(UnitKey, V)>)
    ensures
        forall|i: int|
            0 <= i < entries@.len() ==> amounts@.contains_key((#[trigger] entries@[i]).0.pair())
                && amounts@[entries@[i].0.pair()] == entries@[i].1,
        forall|p: (RegistryId, EntityId)|
            amounts@.contains_key(p) ==> exists|i: int|
                0 <= i < entries@.len() && (#[trigger] entries@[i]).0.pair() == p,
        forall|i: int, j: int|
            0 <= i < j < entries@.len() ==> (#[trigger] entries@[i]).0.precedes(
                (#[trigger] entries@[j]).0,
            ),
{
    let iter = amounts.iter();
    let ghost all = iter.remaining();
    let ghost keys = all.map_values(|kv: (&(RegistryId, EntityId), &V)| *kv.0);
    let mut out: Vec<(UnitKey, V)> = Vec::new();
    for kv in it: iter
        invariant
            it.seq() == all,
            out@.len() == it.index(),
            forall|i: int|
                0 <= i < out@.len() ==> (#[trigger] out@[i]).0.pair() == *all[i].0 && out@[i].1
                    == *all[i].1,
    {
        let key = UnitKey { registry: (*kv.0).0, id: (*kv.0).1 };
        out.push((key, *kv.1));
    }
    proof {
        assert forall|p: (RegistryId, EntityId)| amounts@.contains_key(p) implies exists|i: int|
            0 <= i < out@.len() && (#[trigger] out@[i]).0.pair() == p by {
            assert(all.contains((&p, &amounts@[p])));
            let i = choose|i: int| 0 <= i < all.len() && all[i] == (&p, &amounts@[p]);
            assert(out@[i].0.pair() == p);
        }
        lemma_pairs_in_order(keys);
        assert forall|i: int, j: int| 0 <= i < j < out@.len() implies (#[trigger] out@[i]).0.precedes(
            (#[trigger] out@[j]).0,
        ) by {
            assert(keys[i] == out@[i].0.pair());
            assert(keys[j] == out@[j].0.pair());
        }
    }
    out
}

/// What the map's own order means for pairs: the first components ascend,
/// and where they are equal the second do.
proof fn lemma_pairs_in_order(keys: Seq<(RegistryId, EntityId)>)
    requires
        vstd::std_specs::btree::increasing_seq(keys),
    ensures
        forall|i: int, j: int|
            0 <= i < j < keys.len() ==> (#[trigger] keys[i]).0 < (#[trigger] keys[j]).0 || (keys[i].0
                == keys[j].0 && keys[i].1 < keys[j].1),
{
    broadcast use vstd::laws_cmp::group_laws_cmp;
    broadcast use vstd::std_specs::btree::axiom_increasing_seq_meaning;
    assert(vstd::laws_cmp::obeys_cmp::<(RegistryId, EntityId)>());
    assert forall|i: int, j: int| 0 <= i < j < keys.len() implies (#[trigger] keys[i]).0 < (
    #[trigger] keys[j]).0 || (keys[i].0 == keys[j].0 && keys[i].1 < keys[j].1) by {
        assert(keys[i].cmp_spec(&keys[j]) is Less);
    }
}

} // verus!

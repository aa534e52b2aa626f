//! The registry of one book: the authority on the identities of its entities.
use crate::account::Account;
use crate::key::{AccountKey, EntityId, MoveKey, RegistryId, UnitKey};
use crate::metadata::Metadata;
use crate::move_::Move;
use crate::unit::Unit;
use vstd::prelude::*;
use vstd::std_specs::cmp::PartialEqSpecImpl;

verus! {

/// A registry: its own identifier, and the accounts, units and moves that
/// were created under it, each kind in the order of its ids.
pub struct Index<T: Metadata> {
    id: RegistryId,
    accounts: Vec<Account<T>>,
    units: Vec<Unit<T>>,
    moves: Vec<Move<T>>,
}

impl<T: Metadata> Index<T> {
    /// The registry's identifier.
    pub closed spec fn spec_id(&self) -> RegistryId {
        self.id
    }

    /// The registered accounts, in the order of their ids.
    pub closed spec fn accounts(&self) -> Seq<Account<T>> {
        self.accounts@
    }

    /// The registered units, in the order of their ids.
    pub closed spec fn units(&self) -> Seq<Unit<T>> {
        self.units@
    }

    /// The registered moves, in the order of their ids.
    pub closed spec fn moves(&self) -> Seq<Move<T>> {
        self.moves@
    }

    /// Ids are dense and registry-scoped: the entity at position `i` of its
    /// kind has id `i` and names this registry.
    pub open spec fn wf(&self) -> bool {
        &&& forall|i: int|
            0 <= i < self.accounts().len() ==> (#[trigger] self.accounts()[i]).spec_key().id == i
                && self.accounts()[i].spec_key().registry == self.spec_id()
        &&& forall|i: int|
            0 <= i < self.units().len() ==> (#[trigger] self.units()[i]).spec_key().id == i
                && self.units()[i].spec_key().registry == self.spec_id()
        &&& forall|i: int|
            0 <= i < self.moves().len() ==> (#[trigger] self.moves()[i]).spec_key().id == i
                && self.moves()[i].spec_key().registry == self.spec_id()
    }

    /// Whether `key` names an account of this registry.
    pub open spec fn has_account(&self, key: AccountKey) -> bool {
        key.registry == self.spec_id() && key.id < self.accounts().len()
    }

    /// Whether `key` names a unit of this registry.
    pub open spec fn has_unit(&self, key: UnitKey) -> bool {
        key.registry == self.spec_id() && key.id < self.units().len()
    }

    /// Whether `key` names a move of this registry.
    pub open spec fn has_move(&self, key: MoveKey) -> bool {
        key.registry == self.spec_id() && key.id < self.moves().len()
    }

    /// The registry with identifier `id` and nothing registered.
    pub fn new(id: RegistryId) -> (index: Index<T>)
        ensures
            index.wf(),
            index.spec_id() == id,
            index.accounts() == Seq::<Account<T>>::empty(),
            index.units() == Seq::<Unit<T>>::empty(),
            index.moves() == Seq::<Move<T>>::empty(),
    {
        Index { id, accounts: Vec::new(), units: Vec::new(), moves: Vec::new() }
    }

    /// The registry's identifier.
    pub fn id(&self) -> (id: RegistryId)
        ensures
            id == self.spec_id(),
    {
        self.id
    }

    /// The registry's debug text: its identifier and nothing else.
    pub fn debug_text(&self) -> (text: String)
        ensures
            text@ == crate::text::index_text(self.spec_id() as nat),
    {
        crate::text::entity_debug_text("Index", self.id)
    }

    /// The id that the next account gets: the number of accounts so far.
    pub fn next_account_id(&self) -> (id: EntityId)
        ensures
            id == self.accounts().len(),
    {
        self.accounts.len()
    }

    /// The id that the next unit gets: the number of units so far.
    pub fn next_unit_id(&self) -> (id: EntityId)
        ensures
            id == self.units().len(),
    {
        self.units.len()
    }

    /// The id that the next move gets: the number of moves so far.
    pub fn next_move_id(&self) -> (id: EntityId)
        ensures
            id == self.moves().len(),
    {
        self.moves.len()
    }

    /// Registers an account that carries this registry's next account id.
    pub fn register_account(&mut self, account: Account<T>)
        requires
            old(self).wf(),
            account.spec_key().registry == old(self).spec_id(),
            account.spec_key().id == old(self).accounts().len(),
        ensures
            final(self).wf(),
            final(self).accounts() == old(self).accounts().push(account),
            final(self).units() == old(self).units(),
            final(self).moves() == old(self).moves(),
            final(self).spec_id() == old(self).spec_id(),
    {
        self.accounts.push(account);
        proof {
            assert(self.units() == old(self).units());
            assert(self.moves() == old(self).moves());
            assert forall|i: int| 0 <= i < self.accounts().len() implies (#[trigger] self.accounts()[i]).spec_key().id
                == i && self.accounts()[i].spec_key().registry == self.spec_id() by {
                if i < old(self).accounts().len() {
                    assert(self.accounts()[i] == old(self).accounts()[i]);
                }
            }
        }
    }

    /// Registers a unit that carries this registry's next unit id.
    pub fn register_unit(&mut self, unit: Unit<T>)
        requires
            old(self).wf(),
            unit.spec_key().registry == old(self).spec_id(),
            unit.spec_key().id == old(self).units().len(),
        ensures
            final(self).wf(),
            final(self).units() == old(self).units().push(unit),
            final(self).accounts() == old(self).accounts(),
            final(self).moves() == old(self).moves(),
            final(self).spec_id() == old(self).spec_id(),
    {
        self.units.push(unit);
        proof {
            assert(self.accounts() == old(self).accounts());
            assert(self.moves() == old(self).moves());
            assert forall|i: int| 0 <= i < self.units().len() implies (#[trigger] self.units()[i]).spec_key().id
                == i && self.units()[i].spec_key().registry == self.spec_id() by {
                if i < old(self).units().len() {
                    assert(self.units()[i] == old(self).units()[i]);
                }
            }
        }
    }

    /// Registers a move that carries this registry's next move id.
    pub fn register_move(&mut self, move_: Move<T>)
        requires
            old(self).wf(),
            move_.spec_key().registry == old(self).spec_id(),
            move_.spec_key().id == old(self).moves().len(),
        ensures
            final(self).wf(),
            final(self).moves() == old(self).moves().push(move_),
            final(self).accounts() == old(self).accounts(),
            final(self).units() == old(self).units(),
            final(self).spec_id() == old(self).spec_id(),
    {
        self.moves.push(move_);
        proof {
            assert(self.accounts() == old(self).accounts());
            assert(self.units() == old(self).units());
            assert forall|i: int| 0 <= i < self.moves().len() implies (#[trigger] self.moves()[i]).spec_key().id
                == i && self.moves()[i].spec_key().registry == self.spec_id() by {
                if i < old(self).moves().len() {
                    assert(self.moves()[i] == old(self).moves()[i]);
                }
            }
        }
    }

    /// The account that `key` names, if it is one of this registry's.
    pub fn account(&self, key: AccountKey) -> (found: Option<&Account<T>>)
        ensures
            found is Some <==> self.has_account(key),
            found matches Some(account) ==> *account == self.accounts()[key.id as int],
    {
        if key.registry == self.id && key.id < self.accounts.len() {
            Some(&self.accounts[key.id])
        } else {
            None
        }
    }

    /// The unit that `key` names, if it is one of this registry's.
    pub fn unit(&self, key: UnitKey) -> (found: Option<&Unit<T>>)
        ensures
            found is Some <==> self.has_unit(key),
            found matches Some(unit) ==> *unit == self.units()[key.id as int],
    {
        if key.registry == self.id && key.id < self.units.len() {
            Some(&self.units[key.id])
        } else {
            None
        }
    }

    /// The move that `key` names, if it is one of this registry's.
    pub fn move_(&self, key: MoveKey) -> (found: Option<&Move<T>>)
        ensures
            found is Some <==> self.has_move(key),
            found matches Some(move_) ==> *move_ == self.moves()[key.id as int],
    {
        if key.registry == self.id && key.id < self.moves.len() {
            Some(&self.moves[key.id])
        } else {
            None
        }
    }

    /// Replaces the payload of the account that `key` names. Where `key`
    /// names no account of this registry nothing changes, and the answer is
    /// `false`.
    pub fn set_account_metadata(&mut self, key: AccountKey, meta: T::Account) -> (done: bool)
        requires
            old(self).wf(),
        ensures
            final(self).wf(),
            done == old(self).has_account(key),
            done ==> final(self).accounts() == old(self).accounts().update(
                key.id as int,
                Account::made(key, meta),
            ),
            !done ==> final(self).accounts() == old(self).accounts(),
            final(self).units() == old(self).units(),
            final(self).moves() == old(self).moves(),
            final(self).spec_id() == old(self).spec_id(),
    {
        if key.registry == self.id && key.id < self.accounts.len() {
            self.accounts.set(key.id, Account::create(key, meta));
            proof {
                assert(self.units() == old(self).units());
                assert(self.moves() == old(self).moves());
                assert forall|i: int| 0 <= i < self.accounts().len() implies (
                #[trigger] self.accounts()[i]).spec_key().id == i
                    && self.accounts()[i].spec_key().registry == self.spec_id() by {
                    if i != key.id {
                        assert(self.accounts()[i] == old(self).accounts()[i]);
                    }
                }
            }
            true
        } else {
            false
        }
    }

    /// Replaces the payload of the unit that `key` names. Where `key` names
    /// no unit of this registry nothing changes, and the answer is `false`.
    pub fn set_unit_metadata(&mut self, key: UnitKey, meta: T::Unit) -> (done: bool)
        requires
            old(self).wf(),
        ensures
            final(self).wf(),
            done == old(self).has_unit(key),
            done ==> final(self).units() == old(self).units().update(
                key.id as int,
                Unit::made(key, meta),
            ),
            !done ==> final(self).units() == old(self).units(),
            final(self).accounts() == old(self).accounts(),
            final(self).moves() == old(self).moves(),
            final(self).spec_id() == old(self).spec_id(),
    {
        if key.registry == self.id && key.id < self.units.len() {
            self.units.set(key.id, Unit::create(key, meta));
            proof {
                assert(self.accounts() == old(self).accounts());
                assert(self.moves() == old(self).moves());
                assert forall|i: int| 0 <= i < self.units().len() implies (
                #[trigger] self.units()[i]).spec_key().id == i
                    && self.units()[i].spec_key().registry == self.spec_id() by {
                    if i != key.id {
                        assert(self.units()[i] == old(self).units()[i]);
                    }
                }
            }
            true
        } else {
            false
        }
    }

    /// Replaces the payload of the move that `key` names; its accounts and
    /// its sum stay. Where `key` names no move of this registry nothing
    /// changes, and the answer is `false`.
    pub fn set_move_metadata(&mut self, key: MoveKey, meta: T::Move) -> (done: bool)
        requires
            old(self).wf(),
        ensures
            final(self).wf(),
            done == old(self).has_move(key),
            final(self).moves().len() == old(self).moves().len(),
            forall|i: int|
                0 <= i < old(self).moves().len() && !(done && i == key.id) ==> (
                #[trigger] final(self).moves()[i]) == old(self).moves()[i],
            done ==> final(self).moves()[key.id as int].is_made_of(
                key,
                old(self).moves()[key.id as int].spec_from(),
                old(self).moves()[key.id as int].spec_to(),
                old(self).moves()[key.id as int].spec_sum(),
                meta,
            ),
            final(self).accounts() == old(self).accounts(),
            final(self).units() == old(self).units(),
            final(self).spec_id() == old(self).spec_id(),
    {
        if key.registry == self.id && key.id < self.moves.len() {
            let held = &self.moves[key.id];
            let replacement = Move::create(key, held.from(), held.to(), held.sum().clone(), meta);
            self.moves.set(key.id, replacement);
            proof {
                assert(self.accounts() == old(self).accounts());
                assert(self.units() == old(self).units());
                assert forall|i: int| 0 <= i < self.moves().len() implies (
                #[trigger] self.moves()[i]).spec_key().id == i
                    && self.moves()[i].spec_key().registry == self.spec_id() by {
                    if i != key.id {
                        assert(self.moves()[i] == old(self).moves()[i]);
                    }
                }
            }
            true
        } else {
            false
        }
    }

    /// Releases every entity: the three collections are emptied at once.
    /// The identifier stays.
    pub(crate) fn clear(&mut self)
        ensures
            final(self).wf(),
            final(self).spec_id() == old(self).spec_id(),
            final(self).accounts() == Seq::<Account<T>>::empty(),
            final(self).units() == Seq::<Unit<T>>::empty(),
            final(self).moves() == Seq::<Move<T>>::empty(),
    {
        self.accounts.clear();
        self.units.clear();
        self.moves.clear();
    }
}

impl<T: Metadata> PartialEq for Index<T> {
    /// Registries are equal where their identifiers are, whatever they hold.
    fn eq(&self, other: &Index<T>) -> (equal: bool) {
        self.id == other.id
    }
}

impl<T: Metadata> PartialEqSpecImpl for Index<T> {
    open spec fn obeys_eq_spec() -> bool {
        true
    }

    open spec fn eq_spec(&self, other: &Index<T>) -> bool {
        self.spec_id() == other.spec_id()
    }
}

} // verus!

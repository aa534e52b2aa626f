//! Moves: transfers of a sum from one account to another.
use crate::book::Book;
use crate::key::{AccountKey, MoveKey, UnitKey};
use crate::metadata::Metadata;
use crate::sum::Sum;
use vstd::prelude::*;
use vstd::std_specs::cmp::PartialEqSpecImpl;

verus! {

/// A move: the two accounts it goes between, the sum it transfers, its key,
/// and the payload that the ledger's user attached to it. The accounts and
/// the units of the sum are held by key, so a move names them for as long as
/// it lives, whatever becomes of the book.
pub struct Move<T: Metadata> {
    key: MoveKey,
    from: AccountKey,
    to: AccountKey,
    sum: Sum,
    meta: T::Move,
}

impl<T: Metadata> Move<T> {
    /// The move's key.
    pub closed spec fn spec_key(&self) -> MoveKey {
        self.key
    }

    /// The account that the move leaves.
    pub closed spec fn spec_from(&self) -> AccountKey {
        self.from
    }

    /// The account that the move enters.
    pub closed spec fn spec_to(&self) -> AccountKey {
        self.to
    }

    /// What the move transfers: the amount for each unit.
    pub closed spec fn spec_sum(&self) -> Map<UnitKey, nat> {
        self.sum@
    }

    /// The move's payload.
    pub closed spec fn spec_metadata(&self) -> T::Move {
        self.meta
    }

    /// Whether the move is the one with the given key, accounts, sum and payload.
    pub open spec fn is_made_of(
        &self,
        key: MoveKey,
        from: AccountKey,
        to: AccountKey,
        sum: Map<UnitKey, nat>,
        meta: T::Move,
    ) -> bool {
        &&& self.spec_key() == key
        &&& self.spec_from() == from
        &&& self.spec_to() == to
        &&& self.spec_sum() == sum
        &&& self.spec_metadata() == meta
    }

    /// The move with the given key, accounts, sum and payload.
    pub(crate) fn create(key: MoveKey, from: AccountKey, to: AccountKey, sum: Sum, meta: T::Move) -> (move_:
        Move<T>)
        ensures
            move_.is_made_of(key, from, to, sum@, meta),
    {
        Move { key, from, to, sum, meta }
    }

    /// Creates a move of `sum` from `from` to `to` in `book`: it gets the next
    /// move id of the book's registry, is registered there, and its key is
    /// handed back. Nothing is asked of the accounts or of the sum: they may
    /// belong to another book, be one and the same account, or amount to zero.
    pub fn new(book: &mut Book<T>, from: AccountKey, to: AccountKey, sum: &Sum, meta: T::Move) -> (key:
        MoveKey)
        requires
            old(book).wf(),
        ensures
            final(book).wf(),
            key.registry == old(book).registry(),
            key.id == old(book).moves().len(),
            final(book).moves().len() == old(book).moves().len() + 1,
            final(book).moves().drop_last() == old(book).moves(),
            final(book).moves().last().is_made_of(key, from, to, sum@, meta),
            final(book).accounts() == old(book).accounts(),
            final(book).units() == old(book).units(),
            final(book).registry() == old(book).registry(),
            final(book).metadata() == old(book).metadata(),
    {
        book.new_move(from, to, sum, meta)
    }

    /// The move's key.
    pub fn key(&self) -> (key: MoveKey)
        ensures
            key == self.spec_key(),
    {
        self.key
    }

    /// The move's debug text: its id and nothing else.
    pub fn debug_text(&self) -> (text: String)
        ensures
            text@ == crate::text::entity_text("Move"@, self.spec_key().id as nat),
    {
        self.key.debug_text()
    }

    /// The move's id in its registry.
    pub fn id(&self) -> (id: usize)
        ensures
            id == self.spec_key().id,
    {
        self.key.id
    }

    /// The account that the move leaves.
    pub fn from(&self) -> (from: AccountKey)
        ensures
            from == self.spec_from(),
    {
        self.from
    }

    /// The account that the move enters.
    pub fn to(&self) -> (to: AccountKey)
        ensures
            to == self.spec_to(),
    {
        self.to
    }

    /// What the move transfers.
    pub fn sum(&self) -> (sum: &Sum)
        ensures
            sum@ == self.spec_sum(),
    {
        &self.sum
    }

    /// The move's payload.
    pub fn get_metadata(&self) -> (meta: &T::Move)
        ensures
            *meta == self.spec_metadata(),
    {
        &self.meta
    }

    /// Replaces the move's payload; its key, accounts and sum stay.
    pub fn set_metadata(&mut self, meta: T::Move)
        ensures
            final(self).is_made_of(
                old(self).spec_key(),
                old(self).spec_from(),
                old(self).spec_to(),
                old(self).spec_sum(),
                meta,
            ),
    {
        self.meta = meta;
    }
}

impl<T: Metadata> PartialEq for Move<T> {
    /// Moves are equal where their keys are: nothing else counts.
    fn eq(&self, other: &Move<T>) -> (equal: bool) {
        self.key == other.key
    }
}

impl<T: Metadata> PartialEqSpecImpl for Move<T> {
    open spec fn obeys_eq_spec() -> bool {
        true
    }

    open spec fn eq_spec(&self, other: &Move<T>) -> bool {
        self.spec_key() == other.spec_key()
    }
}

} // verus!

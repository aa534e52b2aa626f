//! Units of measure.
use crate::book::Book;
use crate::key::UnitKey;
use crate::metadata::Metadata;
use vstd::prelude::*;
use vstd::std_specs::cmp::PartialEqSpecImpl;

verus! {

/// A unit of measure, most often the minor unit of a currency: its key and
/// the payload that the ledger's user attached to it.
pub struct Unit<T: Metadata> {
    key: UnitKey,
    meta: T::Unit,
}

impl<T: Metadata> Unit<T> {
    /// The unit's key.
    pub closed spec fn spec_key(&self) -> UnitKey {
        self.key
    }

    /// The unit's payload.
    pub closed spec fn spec_metadata(&self) -> T::Unit {
        self.meta
    }

    /// The unit with the given key and payload.
    pub closed spec fn made(key: UnitKey, meta: T::Unit) -> Unit<T> {
        Unit { key, meta }
    }

    /// A unit is its key and its payload, and nothing else.
    pub proof fn lemma_made(key: UnitKey, meta: T::Unit)
        ensures
            Self::made(key, meta).spec_key() == key,
            Self::made(key, meta).spec_metadata() == meta,
    {
    }

    /// The unit with the given key and payload.
    pub(crate) fn create(key: UnitKey, meta: T::Unit) -> (unit: Unit<T>)
        ensures
            unit == Self::made(key, meta),
            unit.spec_key() == key,
            unit.spec_metadata() == meta,
    {
        Unit { key, meta }
    }

    /// Creates a unit in `book`: it gets the next unit id of the book's
    /// registry, is registered there, and its key is handed back.
    pub fn new(book: &mut Book<T>, meta: T::Unit) -> (key: UnitKey)
        requires
            old(book).wf(),
        ensures
            final(book).wf(),
            key.registry == old(book).registry(),
            key.id == old(book).units().len(),
            final(book).units() == old(book).units().push(Self::made(key, meta)),
            final(book).accounts() == old(book).accounts(),
            final(book).moves() == old(book).moves(),
            final(book).registry() == old(book).registry(),
            final(book).metadata() == old(book).metadata(),
    {
        book.new_unit(meta)
    }

    /// The unit's key.
    pub fn key(&self) -> (key: UnitKey)
        ensures
            key == self.spec_key(),
    {
        self.key
    }

    /// The unit's debug text: its id and nothing else.
    pub fn debug_text(&self) -> (text: String)
        ensures
            text@ == crate::text::entity_text("Unit"@, self.spec_key().id as nat),
    {
        self.key.debug_text()
    }

    /// The unit's id in its registry.
    pub fn id(&self) -> (id: usize)
        ensures
            id == self.spec_key().id,
    {
        self.key.id
    }

    /// The unit's payload.
    pub fn get_metadata(&self) -> (meta: &T::Unit)
        ensures
            *meta == self.spec_metadata(),
    {
        &self.meta
    }

    /// Replaces the unit's payload; its key stays.
    pub fn set_metadata(&mut self, meta: T::Unit)
        ensures
            final(self).spec_metadata() == meta,
            final(self).spec_key() == old(self).spec_key(),
    {
        self.meta = meta;
    }
}

impl<T: Metadata> PartialEq for Unit<T> {
    /// Units are equal where their keys are: the payload does not count.
    fn eq(&self, other: &Unit<T>) -> (equal: bool) {
        self.key == other.key
    }
}

impl<T: Metadata> PartialEqSpecImpl for Unit<T> {
    open spec fn obeys_eq_spec() -> bool {
        true
    }

    open spec fn eq_spec(&self, other: &Unit<T>) -> bool {
        self.spec_key() == other.spec_key()
    }
}

} // verus!

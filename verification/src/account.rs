//! Accounts.
use crate::book::Book;
use crate::key::AccountKey;
use crate::metadata::Metadata;
use vstd::prelude::*;
use vstd::std_specs::cmp::PartialEqSpecImpl;

verus! {

/// An account, the source or the destination of moves: its key and the
/// payload that the ledger's user attached to it.
pub struct Account<T: Metadata> {
    key: AccountKey,
    meta: T::Account,
}

impl<T: Metadata> Account<T> {
    /// The account's key.
    pub closed spec fn spec_key(&self) -> AccountKey {
        self.key
    }

    /// The account's payload.
    pub closed spec fn spec_metadata(&self) -> T::Account {
        self.meta
    }

    /// The account with the given key and payload.
    pub closed spec fn made(key: AccountKey, meta: T::Account) -> Account<T> {
        Account { key, meta }
    }

    /// An account is its key and its payload, and nothing else.
    pub proof fn lemma_made(key: AccountKey, meta: T::Account)
        ensures
            Self::made(key, meta).spec_key() == key,
            Self::made(key, meta).spec_metadata() == meta,
    {
    }

    /// The account with the given key and payload.
    pub(crate) fn create(key: AccountKey, meta: T::Account) -> (account: Account<T>)
        ensures
            account == Self::made(key, meta),
            account.spec_key() == key,
            account.spec_metadata() == meta,
    {
        Account { key, meta }
    }

    /// Creates an account in `book`: it gets the next account id of the book's
    /// registry, is registered there, and its key is handed back.
    pub fn new(book: &mut Book<T>, meta: T::Account) -> (key: AccountKey)
        requires
            old(book).wf(),
        ensures
            final(book).wf(),
            key.registry == old(book).registry(),
            key.id == old(book).accounts().len(),
            final(book).accounts() == old(book).accounts().push(Self::made(key, meta)),
            final(book).units() == old(book).units(),
            final(book).moves() == old(book).moves(),
            final(book).registry() == old(book).registry(),
            final(book).metadata() == old(book).metadata(),
    {
        book.new_account(meta)
    }

    /// The account's key.
    pub fn key(&self) -> (key: AccountKey)
        ensures
            key == self.spec_key(),
    {
        self.key
    }

    /// The account's debug text: its id and nothing else.
    pub fn debug_text(&self) -> (text: String)
        ensures
            text@ == crate::text::entity_text("Account"@, self.spec_key().id as nat),
    {
        self.key.debug_text()
    }

    /// The account's id in its registry.
    pub fn id(&self) -> (id: usize)
        ensures
            id == self.spec_key().id,
    {
        self.key.id
    }

    /// The account's payload.
    pub fn get_metadata(&self) -> (meta: &T::Account)
        ensures
            *meta == self.spec_metadata(),
    {
        &self.meta
    }

    /// Replaces the account's payload; its key stays.
    pub fn set_metadata(&mut self, meta: T::Account)
        ensures
            final(self).spec_metadata() == meta,
            final(self).spec_key() == old(self).spec_key(),
    {
        self.meta = meta;
    }
}

impl<T: Metadata> PartialEq for Account<T> {
    /// Accounts are equal where their keys are: the payload does not count.
    fn eq(&self, other: &Account<T>) -> (equal: bool) {
        self.key == other.key
    }
}

impl<T: Metadata> PartialEqSpecImpl for Account<T> {
    open spec fn obeys_eq_spec() -> bool {
        true
    }

    open spec fn eq_spec(&self, other: &Account<T>) -> bool {
        self.spec_key() == other.spec_key()
    }
}

} // verus!

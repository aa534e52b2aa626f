//! The change that adds an account.
use crate::catalog::{Book, ChangeApplicationFailure, SLOT_LIMIT};
use crate::changes::BookChange;
use crate::entities::account::Entity as Account;
use vstd::prelude::*;

verus! {

/// What the change is created from.
pub struct Input {
    pub account: Account,
}

/// Adds one account to a catalog.
pub struct Change {
    account: Account,
}

impl Change {
    /// The account that the change adds, by its name.
    pub closed spec fn account(&self) -> Seq<char> {
        self.account@
    }

    /// The change that adds the account of `input`.
    pub fn new(input: Input) -> (change: Change)
        ensures
            change.account() == input.account@,
    {
        Change { account: input.account }
    }
}

impl BookChange for Change {
    /// The catalog has room for one account more.
    open spec fn applies_to(&self, book: &Book) -> bool {
        book.accounts().len() < SLOT_LIMIT
    }

    /// It always succeeds: the catalog has the account, beside all that it had.
    open spec fn effect(
        &self,
        before: &Book,
        after: &Book,
        result: Result<(), ChangeApplicationFailure>,
    ) -> bool {
        &&& result is Ok
        &&& after.accounts() == before.accounts().insert(self.account())
        &&& after.currencies() == before.currencies()
        &&& after.transaction_drafts() == before.transaction_drafts()
        &&& after.transactions() == before.transactions()
    }

    fn apply(self, book: &mut Book) -> (result: Result<(), ChangeApplicationFailure>) {
        book.file_account(self.account);
        Ok(())
    }
}

} // verus!

//! The change that adds a currency.
use crate::catalog::{Book, ChangeApplicationFailure};
use crate::changes::BookChange;
use crate::currency::Currency;
use vstd::prelude::*;

verus! {

/// What the change is created from.
pub struct Input {
    pub currency: Currency,
}

/// Adds one currency to a catalog, under its alphabetic code.
pub struct Change {
    currency: Currency,
}

impl Change {
    /// The currency that the change adds.
    pub closed spec fn currency(&self) -> Currency {
        self.currency
    }

    /// The change that adds the currency of `input`.
    pub fn new(input: Input) -> (change: Change)
        ensures
            change.currency() == input.currency,
    {
        Change { currency: input.currency }
    }
}

impl BookChange for Change {
    /// It can be applied to every catalog.
    open spec fn applies_to(&self, book: &Book) -> bool {
        true
    }

    /// Where the code is taken the catalog stays as it was and the failure
    /// names the code; else the currency is filed under its code.
    open spec fn effect(
        &self,
        before: &Book,
        after: &Book,
        result: Result<(), ChangeApplicationFailure>,
    ) -> bool {
        let code = self.currency().iso_alpha_code@;
        &&& after.accounts() == before.accounts()
        &&& after.transaction_drafts() == before.transaction_drafts()
        &&& after.transactions() == before.transactions()
        &&& if before.currencies().contains_key(code) {
            &&& after.currencies() == before.currencies()
            &&& result matches Err(ChangeApplicationFailure::CurrencyAlreadyExists(named))
            &&& named@ == code
        } else {
            &&& after.currencies() == before.currencies().insert(code, self.currency())
            &&& result is Ok
        }
    }

    fn apply(self, book: &mut Book) -> (result: Result<(), ChangeApplicationFailure>) {
        if book.has_currency(self.currency.iso_alpha_code.as_str()) {
            Err(ChangeApplicationFailure::CurrencyAlreadyExists(self.currency.iso_alpha_code.clone()))
        } else {
            book.file_currency(self.currency);
            Ok(())
        }
    }
}

} // verus!

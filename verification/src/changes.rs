//! Changes: what can be applied to a catalog.
use crate::catalog::{Book, ChangeApplicationFailure};
use vstd::prelude::*;

pub mod add;
pub mod add_currency;

verus! {

/// A change to a catalog. A change says of itself what it asks of the
/// catalog and what it does to it; `apply` does just that.
pub trait BookChange: Sized {
    /// What the change asks of the catalog that it is applied to.
    spec fn applies_to(&self, book: &Book) -> bool;

    /// What applying the change comes to: the catalog after, and the result,
    /// for the catalog before.
    spec fn effect(
        &self,
        before: &Book,
        after: &Book,
        result: Result<(), ChangeApplicationFailure>,
    ) -> bool;

    /// Applies the change to `book`.
    fn apply(self, book: &mut Book) -> (result: Result<(), ChangeApplicationFailure>)
        requires
            old(book).wf(),
            self.applies_to(old(book)),
        ensures
            final(book).wf(),
            self.effect(old(book), final(book), result),
    ;
}

} // verus!

//! The payload types that a ledger attaches to its entities.
use vstd::prelude::*;

verus! {

/// One payload type for each kind of entity: the book itself, accounts,
/// units and moves.
pub trait Metadata {
    type Book;

    type Account;

    type Unit;

    type Move;
}

/// A four-tuple names the payloads in the order book, account, unit, move.
impl<B, A, U, M> Metadata for (B, A, U, M) {
    type Book = B;

    type Account = A;

    type Unit = U;

    type Move = M;
}

/// No payload on any entity.
pub type BlankMetadata = ((), (), (), ());

} // verus!

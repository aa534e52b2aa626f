//! Transactions.
use crate::entities::move_::Entity as Move;
use vstd::prelude::*;

verus! {

/// A group of related moves that all occur at one time. Transactions are not
/// created directly: they start as drafts.
pub struct Entity {
    moves: Vec<Move>,
}

impl View for Entity {
    type V = Seq<Move>;

    /// A transaction is its moves, in their order.
    closed spec fn view(&self) -> Seq<Move> {
        self.moves@
    }
}

} // verus!

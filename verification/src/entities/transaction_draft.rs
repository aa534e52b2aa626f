//! Transactions in the making.
use crate::entities::move_::Entity as Move;
use vstd::prelude::*;

verus! {

/// A transaction that is not yet final: the moves collected for it so far.
pub struct Entity {
    moves: Vec<Move>,
}

impl View for Entity {
    type V = Seq<Move>;

    /// A draft is its moves, in their order.
    closed spec fn view(&self) -> Seq<Move> {
        self.moves@
    }
}

} // verus!

//! The entities of a catalog, each in a module of its own with its `Entity`
//! and, where it can be created from outside, the `Input` of `Entity::new`.
pub mod account;
pub mod move_;
pub mod transaction;
pub mod transaction_draft;

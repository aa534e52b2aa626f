//! A ledger kernel.
//!
//! A [`book::Book`] registers accounts, units of measure and moves under
//! identities that are scoped to its registry, and hands out their keys.
//! [`sum::Sum`] and [`balance::Balance`] aggregate amounts per unit.
//!
//! Beside it stands the catalog, [`catalog::Book`]: currencies by code and
//! accounts in dense slot maps, changed by applying [`changes`] to it.
pub mod account;
pub mod balance;
pub mod book;
pub mod catalog;
pub mod changes;
pub mod currency;
pub mod entities;
pub mod index;
pub mod key;
pub mod metadata;
pub mod move_;
pub mod sum;
pub mod text;
pub mod unit;

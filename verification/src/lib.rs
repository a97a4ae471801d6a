//! An in-memory account ledger together with a few small, self-contained
//! demonstration modules.
//!
//! The heart of the crate is [`ledger`]: monetary accounts that keep a
//! balance and an append-only history of transactions, with deposit,
//! withdraw and transfer operations whose contracts pin down exactly how
//! balance and history change.  The remaining modules are small exercises
//! in generics, lifetimes and traits.

pub mod container;
pub mod generics;
pub mod ledger;
pub mod tweet;
pub mod vehicles;
pub mod web_command;

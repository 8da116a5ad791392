//! Custody and claims for a unique item: the item is locked in a vault that only
//! the program controls, a fixed supply of fungible claim units is issued
//! against it, and the item is released only to a holder who surrenders the
//! whole supply.
//!
//! Each lifecycle operation is a function from the current vault record and the
//! presented accounts to the next record and the ledger calls that carry the
//! step out, or to a refusal with no effect.

pub mod address;
pub mod descriptor;
pub mod error;
pub mod laws;
pub mod ledger;
pub mod protocol;
pub mod record;

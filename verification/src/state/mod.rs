//! What is stored: the record of an owner, and the ledger that holds the
//! records of all owners.

pub mod data_account;
pub mod ledger;

pub use data_account::{DataAccount, Record};
pub use ledger::Ledger;

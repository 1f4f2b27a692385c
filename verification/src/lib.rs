//! A per-owner record store for an account-oriented ledger.
//!
//! Every owner has at most one record. The record lives at an address that
//! is derived from the owner's key, only the owner may change or delete it,
//! and its storage is sized once, for the largest payload.
//!
//! The operations are `initialize`, `store_data`, `update_data` and
//! `delete_data`. Each either takes full effect or fails with an
//! [`ErrorCode`] and changes nothing.

pub mod error;
pub mod host;
pub mod instructions;
pub mod lifecycle;
pub mod pubkey;
pub mod state;
pub mod utils;

pub use error::{ErrorCode, ERROR_CODE_OFFSET};
pub use instructions::{
    delete_data, initialize, store_data, update_data, DeleteData, Initialize, StoreData,
    UpdateData,
};
pub use pubkey::Pubkey;
pub use state::{DataAccount, Ledger, Record};
pub use utils::{
    calculate_data_stats, check_clock_reading, check_pda, find_data_account_pda,
    get_current_timestamp, safe_truncate, validate_data_length, validate_pda,
    validate_timestamp, DataStats, DATA_SEED, MAX_DATA_LENGTH,
};

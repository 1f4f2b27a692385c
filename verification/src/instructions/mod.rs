//! The operations of the record store: one module for each.

pub mod delete_data;
pub mod initialize;
pub mod store_data;
pub mod update_data;

pub use delete_data::{delete_data, DeleteData};
pub use initialize::{initialize, Initialize};
pub use store_data::{store_data, StoreData};
pub use update_data::{update_data, UpdateData};

//! The operations of the ledger program on its two stores.

pub mod handler_initialize;
pub mod handler_refresh_prices;
pub mod handler_update_mapping;

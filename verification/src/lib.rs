//! Price-oracle aggregation: a fixed table of price slots fed by external
//! price sources, the rules that refresh it, and the planning logic of the
//! agent that keeps it current.
//!
//! - `oracles`: the adapters that turn an external record into a price.
//! - `state`: the mapping store, the price store and their configuration.
//! - `handlers`: the operations of the ledger program on the stores.
//! - `scope_client` and `submission`: the agent that mirrors the mapping,
//!   plans the operations and follows their submission.
//! - `pyth_mock`: a stand-in publisher of price records.
//! - `pubkey`, `bytes`, `utils`, `errors`: addresses, byte layouts, helpers
//!   and the errors.

pub mod bytes;
pub mod errors;
pub mod handlers;
pub mod oracles;
pub mod pubkey;
pub mod pyth_mock;
pub mod scope_client;
pub mod state;
pub mod submission;
pub mod utils;

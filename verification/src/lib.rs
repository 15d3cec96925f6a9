//! Verified state transitions of a collateral-backed index token.
//!
//! The crate holds the protocol's records, its constant-product pricing rule
//! and the five transitions that act on them. Every transition is a function
//! on plain values: the host that stores the records and reaches the asset
//! ledger hands in what it read and carries out what comes back.

pub mod address;
pub mod burn;
pub mod config;
pub mod error;
pub mod laws;
pub mod ledger;
pub mod mint;
pub mod pricing;
pub mod state;
pub mod swap;

pub use address::Address;
pub use burn::burn_xlst;
pub use config::{initialize, update_yield};
pub use error::{CustomError, TransitionError};
pub use ledger::{BurnProgress, LedgerCall, MintProgress, Next, Party};
pub use mint::mint_xlst;
pub use pricing::amount_out;
pub use state::{ConfigInput, GlobalState, LiquidityPool, ProtocolInitialized, UserAccount};
pub use swap::swap;

//! Creation path for time-locked deferred withdraw orders.
//!
//! A withdraw order records an intent to withdraw funds that may only be
//! fulfilled after a fixed cooling-off delay. This crate covers the creation
//! path: selecting who funds the order's storage, computing the maturity slot
//! with overflow detection, and persisting the tagged, fixed-width record
//! into a freshly allocated storage slot.

pub mod address;
pub mod codec;
pub mod config;
pub mod initiate;
pub mod state;
pub mod storage;
pub mod vault;

pub use address::Address;
pub use config::PyraError;
pub use initiate::{initiate_withdraw, OrderParams};
pub use state::{PayerMode, TimeLock, Vault, WithdrawOrder};
pub use storage::StorageSlot;

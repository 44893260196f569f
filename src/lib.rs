//! A single-admin, upgradable counter store.
//!
//! The store keeps an administrator identity, written once by `init`, and a
//! counter that `increment` bumps. `upgrade` decides whether a caller may have
//! the running code replaced; the host that runs the store performs the
//! storage, the authentication and the code swap, and hands the store plain
//! values.
pub mod address;
pub mod contract;
pub mod laws;

pub use address::Address;
pub use contract::{ContractError, ContractState, DataKey, UpgradableContract, VERSION};

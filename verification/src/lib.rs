//! Persistence primitives of a small ledger contract: one owner address, scalar
//! values and append-only lists, each kept in the host's persistent store under
//! a symbol key.

pub mod contract;
pub mod host;
pub mod laws;
pub mod ledger;

pub use contract::YourContract;

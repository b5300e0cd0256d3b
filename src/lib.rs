//! A token factory contract: it creates a fungible-token contract through a
//! deferred instantiate request, binds the created address when the reply
//! arrives, and lets an admin-managed whitelist mint tokens through it.
//!
//! Address validation belongs to the host chain: every operation that reads
//! an address from a message takes the host's verdict on it as a `bool`.

pub mod contract;
pub mod encode;
pub mod error;
pub mod laws;
pub mod msg;
pub mod state;

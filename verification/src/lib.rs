//! Wallet generation, account inspection and native-currency transfers for an
//! EVM-compatible network, as a library of decisions.
//!
//! The library never talks to the network itself. Every operation that needs
//! the chain is a small state machine: it names the next call to make on the
//! JSON-RPC provider, and is resumed with the provider's reply.

pub mod address;
pub mod amount;
pub mod errors;
pub mod handlers;
pub mod hex;
pub mod keys;
pub mod provider;
pub mod uint256;
pub mod wallet;

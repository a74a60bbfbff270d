//! A client of a Cosmos chain, as an IBC relayer uses it.
//!
//! The client decides and computes; it does not touch the network itself. Where
//! an answer of the chain is needed, a function says what to ask, and another
//! takes the answer:
//!
//! - [`client`]: the configuration, and setting the client up from it.
//! - [`account`]: querying the account that signs.
//! - [`submit`]: submitting messages in a transaction.
//! - [`header`]: the headers that update the counterparty's light client.
//! - [`query`]: queries of the IBC store with proofs.
//! - [`client_state`]: the state with which a light client is created.

pub mod account;
pub mod client;
pub mod client_state;
pub mod error;
pub mod header;
pub mod height;
pub mod identifier;
pub mod key;
pub mod query;
pub mod submit;
pub mod views;

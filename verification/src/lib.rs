//! The core of an ORE mining client: the search for a nonce whose hash
//! crosses a difficulty threshold, and the protocol that delivers the
//! solution found to the ledger.

pub mod hashing;
pub mod partition;
pub mod request;
pub mod round;
pub mod search;
pub mod signal;
pub mod submit;

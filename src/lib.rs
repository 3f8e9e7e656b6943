//! Client side of interchain queries and of the exchange module's messages:
//! a registry that correlates replies with pending queries, decoders for the
//! results and register responses that come back, and validated constructors
//! for the outbound exchange messages.

pub mod balance;
pub mod dex;
pub mod error;
pub mod registry;
pub mod wire;

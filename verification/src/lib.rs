//! Watches an Ethereum-compatible chain for governance ballots: block windows,
//! JSON-RPC requests and replies, and the decoding of ballot records.
//!
//! The library does no I/O. It says what to ask the endpoint and reads what the
//! endpoint answered; it decides when a walk over the chain sleeps, asks and hands out
//! a window. Sending, sleeping and mailing are left to the program around it.

pub mod abi;
pub mod blockchain;
pub mod cli;
pub mod client;
pub mod config;
pub mod error;
pub mod logger;
pub mod notify;
pub mod primitives;
pub mod response;
pub mod utils;

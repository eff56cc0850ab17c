//! The core of an email-driven blockchain relayer.
//!
//! An authenticated email command becomes a transaction that calls one
//! configured function of one configured contract, with the proof of the
//! email's authorization as its first argument. The transaction is submitted
//! under the lock of its chain identity, and a command that asks for a reply
//! is followed until the reply has come once.
//!
//! - [`abi`], [`codec`], [`function`]: values and types of the contract ABI,
//!   their encoding, and the call data of one function.
//! - [`auth`], [`call`]: the authorization proof and the generic call builder.
//! - [`registry`], [`outputs`]: calls, event filters and return values of the
//!   DKIM registry contract.
//! - [`chain`], [`nonce`], [`submission`]: the chain account gateway, the
//!   per-chain lock with its transaction sequence numbers, and the steps of a
//!   send.
//! - [`correlator`], [`request`]: expected replies and the lifecycle of a
//!   request.
//! - [`mail`], [`config`], [`hex`]: outbound emails, settings, and
//!   hexadecimal text.

pub mod abi;
pub mod auth;
pub mod call;
pub mod chain;
pub mod codec;
pub mod config;
pub mod correlator;
pub mod function;
pub mod hex;
pub mod mail;
pub mod nonce;
pub mod outputs;
pub mod registry;
pub mod request;
pub mod submission;

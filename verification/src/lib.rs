//! Typed lifecycle events of a cross-chain bridge.
//!
//! A relay records every transfer and every token event that it sees as a
//! document in a store. This crate holds the typed form of those records
//! ([`schema`]), reads and writes them as documents ([`decode`], [`encode`],
//! with [`round_trip`] for what the two have to do with each other), decides
//! what a watcher of a change feed passes on ([`watcher`]), and converts the
//! records of an earlier layout to the present one ([`legacy`],
//! [`legacy_decode`], [`migrate`]).
//!
//! The crate does no input or output: its caller talks to the store and to
//! the operator, and hands over documents and lines of text.

pub mod decimal;
pub mod decode;
pub mod document;
pub mod encode;
pub mod error;
pub mod legacy;
pub mod legacy_decode;
pub mod migrate;
pub mod read;
pub mod record;
pub mod round_trip;
pub mod schema;
pub mod watcher;
pub mod write;

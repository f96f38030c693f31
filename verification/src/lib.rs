//! A verified registry for digital-asset licensing.
//!
//! Creators register models (opaque referenced artifacts), other parties buy
//! licenses to use them, and creators may register derivative models that
//! reference a parent, subject to the parent's consent flag.  Every record
//! lives in a keyed store at an address derived deterministically from its
//! logical key, and every mutation is gated by identity-based authorization
//! checks.
//!
//! The crate is split into the record data model ([`records`]), the keyed
//! record store ([`store`]), the mathematical transition model ([`state`]),
//! the executable operations ([`ops`]), and proofs of the registry's
//! lifecycle laws ([`laws`]).

pub mod laws;
pub mod ops;
pub mod records;
pub mod state;
pub mod store;

//! Verified core of the minting path of a non-fungible token registry.
//!
//! The library assigns each new token an identity, computes a royalty split
//! that must total exactly 10000 basis points, enforces optional per-type
//! supply caps, and reconciles the storage cost of the new record against a
//! caller-supplied payment.  All registry state lives in an explicit
//! [`contract::Contract`] store, so the all-or-nothing behaviour of a mint is
//! part of its contract: on any failure the store is left untouched.

pub mod contract;
pub mod error;
pub mod royalty;
pub mod storage;
pub mod str_map;
pub mod str_set;
pub mod token;
pub mod token_id;

//! Provisioning of canisters: the requests that create a canister, install its
//! code and persist a copy of that code, and the decisions taken on each reply.
//! The remote calls themselves are made by the caller; this crate decides what
//! to send and what the outcome is.

pub mod text;
pub mod types;
pub mod provisioning;

//! An asynchronous native-call bridge for blockchain read queries.
//!
//! A foreign caller holds an opaque transport handle and issues two kinds of
//! read query against it: a full account-state lookup and a paginated
//! transaction-history fetch. Each call is dispatched to a background task,
//! serialized against other calls on the same handle by a take-and-restore
//! guard, and its outcome — a payload handle or an error descriptor drawn from
//! a closed status taxonomy — is delivered on a caller-supplied result port.
//!
//! The transport's network protocol, address parsing and the JSON rendering of
//! payloads are external collaborators; this crate states and verifies the
//! bridge logic itself: the guard discipline, the error taxonomy and its wire
//! encoding, and the two query workflows over plain models of the chain data.

pub mod outcome;
pub mod guard;
pub mod models;
pub mod account;
pub mod transactions;
pub mod bridge;

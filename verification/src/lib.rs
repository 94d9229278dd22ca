//! Core logic of a token-based authentication service.
//!
//! The service issues opaque bearer tokens after verifying a password
//! against a stored memory-hard hash, and validates previously issued
//! tokens against a session cache whose entries expire unless refreshed.
//! This crate holds the protocol decisions — credential verification,
//! unique-token issuance, atomic TTL refresh, failure classification —
//! together with reference models of the two backing stores, and the
//! polling rule that merges two address-family-specific accept streams
//! into one. Network transport, the real cache and database drivers,
//! and process bootstrapping live outside the crate and hand plain
//! values in.

pub mod auth_service;
pub mod combined_incoming;
pub mod credential_store;
pub mod password;
pub mod protocol;
pub mod records;
pub mod session_cache;
pub mod token;

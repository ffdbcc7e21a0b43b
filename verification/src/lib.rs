//! Credential-and-session subsystem backing a small user directory.
//!
//! The crate registers accounts, authenticates logins and issues/validates
//! bearer session tokens, while keeping the user store's invariants: logins
//! are unique, identities are allocated monotonically, credentials are stored
//! only as salted digests, and a session token resolves back to the identity
//! it was issued for.

pub mod config;
pub mod credential;
pub mod dto;
pub mod gate;
pub mod service;
pub mod store;
pub mod token;
pub mod user;


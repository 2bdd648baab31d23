//! A minimal credential-and-session core for an invitation-gated service:
//! a credential store holding users and single-use invitations, a keyed
//! password hasher, a stateless signed session token issuer, and the
//! uniform JSON response envelope.

pub mod auth;
pub mod hash;
pub mod hex;
pub mod models;
pub mod responses;
pub mod session;
pub mod store;

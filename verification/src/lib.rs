//! Sealed streaming transport support for an RPC client: identity bootstrap,
//! wallet facade, envelope sealing/opening, and HTTP response dispatch.
//!
//! The cryptographic engine (seal/open), DID verification and the persistent
//! secure store are outside collaborators; they are reached through a small
//! set of trusted wrappers, and everything decided on their results is
//! verified here.

pub mod bootstrap;
pub mod errors;
pub mod get;
pub mod response;
pub mod settings;
pub mod strings;
pub mod tsp_messages;
pub mod wallet;

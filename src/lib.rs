//! Request authentication for a GraphQL gateway: bearer-credential lookup,
//! key-set matching, token verification with per-key fallback, claim policy,
//! and the two pipeline hooks that store and forward verified identity data.

pub mod config;
pub mod text;
pub mod request;
pub mod lookup;
pub mod error;
pub mod keys;
pub mod token;
pub mod plugin;
pub mod persisted_documents;
pub mod jwks_source;

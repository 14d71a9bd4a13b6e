//! Core of a registry sidecar for a GraphQL gateway: a refreshed cache of
//! registry state, an admission guard for persisted documents, and a
//! buffered usage reporter, each modelled and verified.
pub mod client;
pub mod snapshot;
pub mod cache;
pub mod guard;
pub mod reporter;

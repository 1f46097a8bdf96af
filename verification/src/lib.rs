//! A flair catalog and assignment engine for federated communities.
//!
//! Communities define named flairs (badges); each user carries at most one
//! flair per community. Mutations are gated by an authorization decision
//! computed from an identity fact reported by the community platform.

pub mod auth;
pub mod engine;
pub mod errors;
pub mod laws;
pub mod model;
pub mod oracle;
pub mod records;
pub mod seq_lemmas;
pub mod store;

//! The error kinds an operation can report, each tied by the operations'
//! contracts to exactly one cause.

use vstd::prelude::*;

verus! {

/// Why an operation was refused.
#[derive(Clone, Copy, Debug, PartialEq, Eq, Structural)]
pub enum FlairError {
    /// The authorization decision denied the action (including every
    /// identity-oracle failure: authorization fails closed).
    Unauthorized,
    /// A definition with the same `(name, community_actor_id)` already exists.
    Conflict,
    /// The definition to remove does not exist.
    NotFound,
    /// An assignment referenced a flair name not defined in the community.
    NoSuchFlair,
}

} // verus!

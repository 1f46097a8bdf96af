//! The identity fact the oracle reports and the authorization decision
//! computed from it. The decision is a pure function of the fact and the
//! request; every oracle failure decides to Deny (fail-closed).

use vstd::prelude::*;

verus! {

/// What the identity oracle reported for one credential at call time: who
/// the caller is and which communities they moderate. Never cached across
/// requests.
pub struct IdentityFact {
    pub actor_id: String,
    pub moderated_communities: Vec<String>,
}

/// Mathematical value of an [`IdentityFact`].
#[verifier::ext_equal]
pub struct IdentityFactView {
    pub actor_id: Seq<char>,
    pub moderated_communities: Seq<Seq<char>>,
}

impl View for IdentityFact {
    type V = IdentityFactView;

    open spec fn view(&self) -> IdentityFactView {
        IdentityFactView {
            actor_id: self.actor_id@,
            moderated_communities: Seq::new(
                self.moderated_communities@.len(),
                |i: int| self.moderated_communities@[i]@,
            ),
        }
    }
}

/// How one resolution attempt against the identity oracle ended.
pub enum OracleOutcome {
    /// The oracle answered and the answer was well-formed.
    Fact(IdentityFact),
    /// The oracle could not be reached, or answered outside the 2xx range.
    Unreachable,
    /// The oracle rejected the presented credential.
    InvalidCredential,
    /// The oracle's answer did not match the expected schema.
    MalformedResponse,
}

/// The caller moderates the community.
pub open spec fn moderates(fact: IdentityFactView, community: Seq<char>) -> bool {
    fact.moderated_communities.contains(community)
}

/// The caller may create or replace or delete the user's assignment: they
/// are that user, or they moderate the community.
pub open spec fn fact_allows_assignment(fact: IdentityFactView, user: Seq<char>, community: Seq<char>) -> bool {
    fact.actor_id == user || moderates(fact, community)
}

/// The caller may create or delete a flair definition: moderators only.
pub open spec fn fact_allows_catalog(fact: IdentityFactView, community: Seq<char>) -> bool {
    moderates(fact, community)
}

/// The assignment-mutation decision over a whole resolution outcome: a
/// failed resolution never allows anything.
pub open spec fn outcome_allows_assignment(outcome: OracleOutcome, user: Seq<char>, community: Seq<char>) -> bool {
    match outcome {
        OracleOutcome::Fact(fact) => fact_allows_assignment(fact@, user, community),
        _ => false,
    }
}

/// The catalog-mutation decision over a whole resolution outcome, likewise
/// fail-closed.
pub open spec fn outcome_allows_catalog(outcome: OracleOutcome, community: Seq<char>) -> bool {
    match outcome {
        OracleOutcome::Fact(fact) => fact_allows_catalog(fact@, community),
        _ => false,
    }
}

/// The caller is the user whose assignment the request touches.
pub fn can_edit_own_assignment(fact: &IdentityFact, target_user_actor_id: &String) -> (r: bool)
    ensures
        r == (fact@.actor_id == target_user_actor_id@),
{
    fact.actor_id == *target_user_actor_id
}

/// The caller moderates the community the request touches.
pub fn can_administer_community(fact: &IdentityFact, community_actor_id: &String) -> (r: bool)
    ensures
        r == moderates(fact@, community_actor_id@),
{
    let mut i: usize = 0;
    let mut found = false;
    while i < fact.moderated_communities.len()
        invariant
            i <= fact.moderated_communities.len(),
            found == exists|j: int| 0 <= j < i
                && fact@.moderated_communities[j] == community_actor_id@,
        decreases fact.moderated_communities.len() - i,
    {
        let here = fact.moderated_communities[i] == *community_actor_id;
        proof {
            if here {
                assert(0 <= i < i + 1 && fact@.moderated_communities[i as int] == community_actor_id@);
            } else if found {
                let j = choose|j: int| 0 <= j < i && fact@.moderated_communities[j] == community_actor_id@;
                assert(0 <= j < i + 1 && fact@.moderated_communities[j] == community_actor_id@);
            }
        }
        if here {
            found = true;
        }
        i = i + 1;
    }
    proof {
        if found {
            let j = choose|j: int| 0 <= j < fact@.moderated_communities.len()
                && fact@.moderated_communities[j] == community_actor_id@;
            assert(fact@.moderated_communities.contains(fact@.moderated_communities[j]));
        } else {
            assert forall|j: int| 0 <= j < fact@.moderated_communities.len()
                implies fact@.moderated_communities[j] != community_actor_id@ by {}
        }
    }
    found
}

/// May this resolution outcome change the named user's assignment in the
/// community? Owners and moderators may; everything else, a failed
/// resolution included, is denied.
pub fn verify_user(
    outcome: &OracleOutcome,
    user_actor_id: &String,
    community_actor_id: &String,
) -> (r: bool)
    ensures
        r == outcome_allows_assignment(*outcome, user_actor_id@, community_actor_id@),
{
    match outcome {
        OracleOutcome::Fact(fact) => {
            can_edit_own_assignment(fact, user_actor_id)
                || can_administer_community(fact, community_actor_id)
        },
        _ => false,
    }
}

/// May this resolution outcome create or remove a flair definition in the
/// community? Moderators only; a failed resolution is denied.
pub fn verify_mod(outcome: &OracleOutcome, community_actor_id: &String) -> (r: bool)
    ensures
        r == outcome_allows_catalog(*outcome, community_actor_id@),
{
    match outcome {
        OracleOutcome::Fact(fact) => can_administer_community(fact, community_actor_id),
        _ => false,
    }
}

} // verus!

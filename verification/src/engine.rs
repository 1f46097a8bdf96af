//! The four mutating operations the transport layer dispatches to, each
//! running the authorization decision strictly before touching the store,
//! and failing closed on any oracle failure.

use vstd::prelude::*;
use crate::auth::{
    outcome_allows_assignment, outcome_allows_catalog, verify_mod, verify_user, OracleOutcome,
};
use crate::errors::FlairError;
use crate::model::{assign_step, define_step, undefine_step, unassign_step, wf, StoreView};
use crate::records::{Flair, FlairView};
use crate::store::FlairStore;

verus! {

/// Assigning a flair to a user: denied outright unless the caller is that
/// user or a moderator; otherwise the store's upsert, stamped `t`.
pub open spec fn put_user_flair_step(
    s: StoreView,
    outcome: OracleOutcome,
    user: Seq<char>,
    community: Seq<char>,
    name: Seq<char>,
    t: int,
) -> (StoreView, Result<(), FlairError>) {
    if !outcome_allows_assignment(outcome, user, community) {
        (s, Err(FlairError::Unauthorized))
    } else {
        assign_step(s, user, community, name, t)
    }
}

/// Removing a user's assignment: same authorization rule as assigning.
pub open spec fn delete_user_flair_step(
    s: StoreView,
    outcome: OracleOutcome,
    user: Seq<char>,
    community: Seq<char>,
) -> (StoreView, Result<(), FlairError>) {
    if !outcome_allows_assignment(outcome, user, community) {
        (s, Err(FlairError::Unauthorized))
    } else {
        (unassign_step(s, user, community), Ok(()))
    }
}

/// Creating a definition: moderators of the flair's community only.
pub open spec fn put_community_flair_step(
    s: StoreView,
    outcome: OracleOutcome,
    f: FlairView,
) -> (StoreView, Result<(), FlairError>) {
    if !outcome_allows_catalog(outcome, f.community_actor_id) {
        (s, Err(FlairError::Unauthorized))
    } else {
        define_step(s, f)
    }
}

/// Removing a definition (with its cascade): moderators only.
pub open spec fn delete_community_flair_step(
    s: StoreView,
    outcome: OracleOutcome,
    name: Seq<char>,
    community: Seq<char>,
) -> (StoreView, Result<(), FlairError>) {
    if !outcome_allows_catalog(outcome, community) {
        (s, Err(FlairError::Unauthorized))
    } else {
        undefine_step(s, name, community)
    }
}

/// Relies on chrono's `Utc::now` for the wall-clock time an assignment is
/// stamped with, reduced to whole seconds since the Unix epoch by
/// `DateTime::timestamp`. Nothing is promised of the value; `Utc::now`
/// itself panics on a machine whose clock reads earlier than the epoch.
#[verifier::external_body]
fn now_utc_timestamp() -> i64 {
    chrono::Utc::now().timestamp()
}

/// Create or replace the user's flair in a community. The authorization
/// decision runs first and fails closed; only then does the store's atomic
/// upsert run, stamped with the current time.
pub fn put_user_flair(
    store: &mut FlairStore,
    outcome: &OracleOutcome,
    user_actor_id: &String,
    community_actor_id: &String,
    flair_name: &String,
) -> (r: Result<(), FlairError>)
    requires
        wf(old(store)@),
    ensures
        wf(final(store)@),
        exists|t: int|
            #![auto]
            final(store)@ == put_user_flair_step(
                old(store)@,
                *outcome,
                user_actor_id@,
                community_actor_id@,
                flair_name@,
                t,
            ).0 && r == put_user_flair_step(
                old(store)@,
                *outcome,
                user_actor_id@,
                community_actor_id@,
                flair_name@,
                t,
            ).1,
{
    if !verify_user(outcome, user_actor_id, community_actor_id) {
        proof {
            assert(store@ == put_user_flair_step(
                old(store)@,
                *outcome,
                user_actor_id@,
                community_actor_id@,
                flair_name@,
                0,
            ).0);
        }
        return Err(FlairError::Unauthorized);
    }
    let now = now_utc_timestamp();
    let r = store.assign(user_actor_id, community_actor_id, flair_name, now);
    proof {
        assert(store@ == put_user_flair_step(
            old(store)@,
            *outcome,
            user_actor_id@,
            community_actor_id@,
            flair_name@,
            now as int,
        ).0);
    }
    r
}

/// Remove the user's flair in a community, idempotently; the same
/// authorization rule as assigning one.
pub fn delete_user_flair(
    store: &mut FlairStore,
    outcome: &OracleOutcome,
    user_actor_id: &String,
    community_actor_id: &String,
) -> (r: Result<(), FlairError>)
    requires
        wf(old(store)@),
    ensures
        wf(final(store)@),
        final(store)@ == delete_user_flair_step(
            old(store)@,
            *outcome,
            user_actor_id@,
            community_actor_id@,
        ).0,
        r == delete_user_flair_step(old(store)@, *outcome, user_actor_id@, community_actor_id@).1,
{
    if !verify_user(outcome, user_actor_id, community_actor_id) {
        return Err(FlairError::Unauthorized);
    }
    store.unassign(user_actor_id, community_actor_id);
    Ok(())
}

/// Create a flair definition; moderators of its community only.
pub fn put_community_flair(store: &mut FlairStore, outcome: &OracleOutcome, f: Flair) -> (r: Result<
    (),
    FlairError,
>)
    requires
        wf(old(store)@),
    ensures
        wf(final(store)@),
        final(store)@ == put_community_flair_step(old(store)@, *outcome, f@).0,
        r == put_community_flair_step(old(store)@, *outcome, f@).1,
{
    if !verify_mod(outcome, &f.community_actor_id) {
        return Err(FlairError::Unauthorized);
    }
    store.define(f)
}

/// Remove a flair definition and cascade to its assignments; moderators
/// only.
pub fn delete_community_flair(
    store: &mut FlairStore,
    outcome: &OracleOutcome,
    name: &String,
    community_actor_id: &String,
) -> (r: Result<(), FlairError>)
    requires
        wf(old(store)@),
    ensures
        wf(final(store)@),
        final(store)@ == delete_community_flair_step(
            old(store)@,
            *outcome,
            name@,
            community_actor_id@,
        ).0,
        r == delete_community_flair_step(old(store)@, *outcome, name@, community_actor_id@).1,
{
    if !verify_mod(outcome, community_actor_id) {
        return Err(FlairError::Unauthorized);
    }
    store.undefine(name, community_actor_id)
}

} // verus!

//! The mathematical model of the engine's state and of every operation on
//! it. Executable code in [`crate::store`] and [`crate::engine`] is specified
//! as implementing exactly these step functions.

use vstd::prelude::*;
use crate::errors::FlairError;
use crate::records::{FlairView, UserFlairView};

verus! {

/// Mathematical state of the engine: both relations, in insertion order.
#[verifier::ext_equal]
pub struct StoreView {
    pub flairs: Seq<FlairView>,
    pub user_flairs: Seq<UserFlairView>,
}

/// `f` carries the natural key `(name, community)`.
pub open spec fn flair_has_key(f: FlairView, name: Seq<char>, community: Seq<char>) -> bool {
    f.name == name && f.community_actor_id == community
}

/// `a` carries the natural key `(user, community)`.
pub open spec fn assignment_has_key(a: UserFlairView, user: Seq<char>, community: Seq<char>) -> bool {
    a.user_actor_id == user && a.flair_community_actor_id == community
}

/// `a` references the definition keyed `(name, community)`.
pub open spec fn assignment_refers_to(a: UserFlairView, name: Seq<char>, community: Seq<char>) -> bool {
    a.flair_name == name && a.flair_community_actor_id == community
}

/// A definition keyed `(name, community)` exists.
pub open spec fn defined(s: StoreView, name: Seq<char>, community: Seq<char>) -> bool {
    exists|i: int| 0 <= i < s.flairs.len() && flair_has_key(#[trigger] s.flairs[i], name, community)
}

/// The definition keyed `(name, community)`; meaningful when [`defined`].
pub open spec fn flair_of(s: StoreView, name: Seq<char>, community: Seq<char>) -> FlairView
    recommends
        defined(s, name, community),
{
    s.flairs[choose|i: int| 0 <= i < s.flairs.len() && flair_has_key(#[trigger] s.flairs[i], name, community)]
}

/// The user holds a flair in the community.
pub open spec fn assigned(s: StoreView, user: Seq<char>, community: Seq<char>) -> bool {
    exists|i: int| 0 <= i < s.user_flairs.len() && assignment_has_key(#[trigger] s.user_flairs[i], user, community)
}

/// The user's assignment row; meaningful when [`assigned`].
pub open spec fn assignment_of(s: StoreView, user: Seq<char>, community: Seq<char>) -> UserFlairView
    recommends
        assigned(s, user, community),
{
    s.user_flairs[choose|i: int| 0 <= i < s.user_flairs.len()
        && assignment_has_key(#[trigger] s.user_flairs[i], user, community)]
}

/// All assignment rows keyed `(user, community)`, in order.
pub open spec fn assignments_for(s: StoreView, user: Seq<char>, community: Seq<char>) -> Seq<UserFlairView> {
    s.user_flairs.filter(|a: UserFlairView| assignment_has_key(a, user, community))
}

/// No two definitions share a key.
pub open spec fn flairs_unique(s: Seq<FlairView>) -> bool {
    forall|i: int, j: int| 0 <= i < j < s.len()
        ==> !flair_has_key(#[trigger] s[j], (#[trigger] s[i]).name, s[i].community_actor_id)
}

/// No two assignment rows share a key: at most one flair per user per community.
pub open spec fn assignments_unique(s: Seq<UserFlairView>) -> bool {
    forall|i: int, j: int| 0 <= i < j < s.len()
        ==> !assignment_has_key(#[trigger] s[j], (#[trigger] s[i]).user_actor_id, s[i].flair_community_actor_id)
}

/// Every assignment references an existing definition: no orphans.
pub open spec fn assignments_defined(s: StoreView) -> bool {
    forall|i: int| 0 <= i < s.user_flairs.len()
        ==> defined(s, (#[trigger] s.user_flairs[i]).flair_name, s.user_flairs[i].flair_community_actor_id)
}

/// The store's invariant: both keys unique, and referential integrity.
pub open spec fn wf(s: StoreView) -> bool {
    &&& flairs_unique(s.flairs)
    &&& assignments_unique(s.user_flairs)
    &&& assignments_defined(s)
}

/// The empty store.
pub open spec fn empty_store() -> StoreView {
    StoreView { flairs: Seq::empty(), user_flairs: Seq::empty() }
}

/// Creating a definition: refused with `Conflict` when the key is taken,
/// otherwise appended.
pub open spec fn define_step(s: StoreView, f: FlairView) -> (StoreView, Result<(), FlairError>) {
    if defined(s, f.name, f.community_actor_id) {
        (s, Err(FlairError::Conflict))
    } else {
        (StoreView { flairs: s.flairs.push(f), ..s }, Ok(()))
    }
}

/// Removing a definition: refused with `NotFound` when absent; otherwise the
/// definition goes, and with it every assignment that referenced it (the
/// cascade), atomically.
pub open spec fn undefine_step(s: StoreView, name: Seq<char>, community: Seq<char>) -> (StoreView, Result<(), FlairError>) {
    if !defined(s, name, community) {
        (s, Err(FlairError::NotFound))
    } else {
        (StoreView {
            flairs: s.flairs.filter(|f: FlairView| !flair_has_key(f, name, community)),
            user_flairs: s.user_flairs.filter(|a: UserFlairView| !assignment_refers_to(a, name, community)),
        }, Ok(()))
    }
}

/// Assigning a flair: refused with `NoSuchFlair` when the definition is
/// absent; otherwise an upsert, replacing any prior row for the same
/// `(user, community)` key in one step.
pub open spec fn assign_step(s: StoreView, user: Seq<char>, community: Seq<char>, name: Seq<char>, assigned_on: int) -> (StoreView, Result<(), FlairError>) {
    if !defined(s, name, community) {
        (s, Err(FlairError::NoSuchFlair))
    } else {
        (StoreView {
            user_flairs: s.user_flairs
                .filter(|a: UserFlairView| !assignment_has_key(a, user, community))
                .push(UserFlairView {
                    user_actor_id: user,
                    flair_name: name,
                    flair_community_actor_id: community,
                    assigned_on: assigned_on,
                }),
            ..s
        }, Ok(()))
    }
}

/// Removing a user's assignment; idempotent, so never an error.
pub open spec fn unassign_step(s: StoreView, user: Seq<char>, community: Seq<char>) -> StoreView {
    StoreView {
        user_flairs: s.user_flairs.filter(|a: UserFlairView| !assignment_has_key(a, user, community)),
        ..s
    }
}

/// A viewer sees the definition: it belongs to the community, and it is
/// either not `mod_only` or the viewer is shown `mod_only` rows too.
pub open spec fn visibility_pred(community: Seq<char>, include_mod_only: bool) -> spec_fn(FlairView) -> bool {
    |f: FlairView| f.community_actor_id == community && (include_mod_only || !f.mod_only)
}

/// The community's definitions a viewer may see: every non-`mod_only` one,
/// plus the `mod_only` ones only when `include_mod_only` holds.
pub open spec fn visible_flairs(s: StoreView, community: Seq<char>, include_mod_only: bool) -> Seq<FlairView> {
    s.flairs.filter(visibility_pred(community, include_mod_only))
}

/// The definition the user's assignment references, through the join on
/// `(flair_name, community)`; `None` when the user holds no flair there.
pub open spec fn user_flair_of(s: StoreView, community: Seq<char>, user: Seq<char>) -> Option<FlairView> {
    if assigned(s, user, community) {
        let a = assignment_of(s, user, community);
        if defined(s, a.flair_name, community) {
            Some(flair_of(s, a.flair_name, community))
        } else {
            None
        }
    } else {
        None
    }
}

} // verus!

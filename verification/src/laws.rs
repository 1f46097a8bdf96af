//! The engine's stated guarantees, each proved once over the step
//! functions that the executable operations are specified against.

use vstd::prelude::*;
use crate::auth::{moderates, IdentityFact, OracleOutcome};
use crate::engine::{
    delete_community_flair_step, delete_user_flair_step, put_community_flair_step,
    put_user_flair_step,
};
use crate::errors::FlairError;
use crate::model::{
    assign_step, assigned, assignment_has_key, assignment_of, assignment_refers_to,
    assignments_for, define_step, defined, flair_has_key, undefine_step, user_flair_of,
    visibility_pred, visible_flairs, wf, StoreView,
};
use crate::records::{FlairView, UserFlairView};
use crate::seq_lemmas::{
    lemma_filter_all_false, lemma_filter_all_true, lemma_filter_membership, lemma_filter_push,
};

verus! {

/// Defining a key that a definition already holds reports `Conflict` and
/// changes nothing: in particular, right after a successful `define`, a
/// second `define` of the same `(name, community)` key conflicts and leaves
/// the first definition in place.
pub proof fn lemma_define_twice_conflicts(s: StoreView, f: FlairView, g: FlairView)
    requires
        wf(s),
        flair_has_key(g, f.name, f.community_actor_id),
    ensures
        ({
            let (s1, r1) = define_step(s, f);
            r1 is Ok ==> define_step(s1, g) == (
                s1,
                Err::<(), FlairError>(FlairError::Conflict),
            )
        }),
{
    let (s1, r1) = define_step(s, f);
    if r1 is Ok {
        let last = s1.flairs.len() - 1;
        assert(s1.flairs[last] == f);
        assert(flair_has_key(s1.flairs[last], g.name, g.community_actor_id));
    }
}

/// Assigning one flair and then another to the same user in the same
/// community leaves exactly one assignment row for that pair, and it holds
/// the second flair.
pub proof fn lemma_assign_replaces(
    s: StoreView,
    user: Seq<char>,
    community: Seq<char>,
    n1: Seq<char>,
    n2: Seq<char>,
    t1: int,
    t2: int,
)
    requires
        wf(s),
        defined(s, n1, community),
        defined(s, n2, community),
    ensures
        ({
            let s1 = assign_step(s, user, community, n1, t1).0;
            let s2 = assign_step(s1, user, community, n2, t2).0;
            assignments_for(s2, user, community) == seq![
                UserFlairView {
                    user_actor_id: user,
                    flair_name: n2,
                    flair_community_actor_id: community,
                    assigned_on: t2,
                },
            ]
        }),
{
    let drop = |a: UserFlairView| !assignment_has_key(a, user, community);
    let keep = |a: UserFlairView| assignment_has_key(a, user, community);
    let row1 = UserFlairView {
        user_actor_id: user,
        flair_name: n1,
        flair_community_actor_id: community,
        assigned_on: t1,
    };
    let row2 = UserFlairView {
        user_actor_id: user,
        flair_name: n2,
        flair_community_actor_id: community,
        assigned_on: t2,
    };
    let s1 = assign_step(s, user, community, n1, t1).0;
    let s2 = assign_step(s1, user, community, n2, t2).0;
    let without = s.user_flairs.filter(drop);
    assert(s1.user_flairs == without.push(row1));
    assert(s1.flairs == s.flairs);
    assert(s2.user_flairs == s1.user_flairs.filter(drop).push(row2));

    assert forall|i: int| 0 <= i < without.len() implies drop(#[trigger] without[i]) by {
        s.user_flairs.lemma_filter_pred(drop, i);
    }
    lemma_filter_push(without, row1, drop);
    lemma_filter_all_true(without, drop);
    assert(s2.user_flairs == without.push(row2));

    lemma_filter_push(without, row2, keep);
    assert forall|i: int| 0 <= i < without.len() implies !keep(#[trigger] without[i]) by {}
    lemma_filter_all_false(without, keep);
    assert(assignments_for(s2, user, community) =~= seq![row2]);
}

/// Removing a definition cascades: afterwards the definition is gone, no
/// assignment references it any more, and a user who wore it wears nothing
/// — their flair lookup answers `None`.
pub proof fn lemma_undefine_cascades(
    s: StoreView,
    name: Seq<char>,
    community: Seq<char>,
    user: Seq<char>,
)
    requires
        wf(s),
    ensures
        ({
            let (s1, r) = undefine_step(s, name, community);
            r is Ok ==> !defined(s1, name, community) && (forall|i: int|
                0 <= i < s1.user_flairs.len()
                    ==> !assignment_refers_to(#[trigger] s1.user_flairs[i], name, community)) && (
            assigned(s, user, community) && assignment_of(s, user, community).flair_name == name
                ==> user_flair_of(s1, community, user) is None)
        }),
{
    let (s1, r) = undefine_step(s, name, community);
    if r is Ok {
        let fdrop = |f: FlairView| !flair_has_key(f, name, community);
        let adrop = |a: UserFlairView| !assignment_refers_to(a, name, community);
        assert forall|i: int| 0 <= i < s1.flairs.len() implies !flair_has_key(
            #[trigger] s1.flairs[i],
            name,
            community,
        ) by {
            s.flairs.lemma_filter_pred(fdrop, i);
        }
        assert forall|i: int| 0 <= i < s1.user_flairs.len() implies !assignment_refers_to(
            #[trigger] s1.user_flairs[i],
            name,
            community,
        ) by {
            s.user_flairs.lemma_filter_pred(adrop, i);
        }
        if assigned(s, user, community) && assignment_of(s, user, community).flair_name == name {
            // the user's one row in `s` referenced the removed key, so the
            // cascade dropped it, and no other row carries their key
            assert forall|i: int| 0 <= i < s1.user_flairs.len() implies !assignment_has_key(
                #[trigger] s1.user_flairs[i],
                user,
                community,
            ) by {
                if assignment_has_key(s1.user_flairs[i], user, community) {
                    lemma_filter_membership(s.user_flairs, adrop, i);
                    let j = choose|j: int| 0 <= j < s.user_flairs.len() && s.user_flairs[j]
                        == s1.user_flairs[i];
                    let k = choose|k: int| 0 <= k < s.user_flairs.len() && assignment_has_key(
                        #[trigger] s.user_flairs[k],
                        user,
                        community,
                    );
                    assert(s.user_flairs[j] == s.user_flairs[k]);
                    assert(assignment_refers_to(s1.user_flairs[i], name, community));
                }
            }
            assert(!assigned(s1, user, community));
        }
    }
}

/// Assigning a flair name that is not defined in the community is refused
/// with `NoSuchFlair` and writes nothing at all.
pub proof fn lemma_assign_undefined_rejected(
    s: StoreView,
    user: Seq<char>,
    community: Seq<char>,
    name: Seq<char>,
    t: int,
)
    requires
        !defined(s, name, community),
    ensures
        assign_step(s, user, community, name, t) == (
            s,
            Err::<(), FlairError>(FlairError::NoSuchFlair),
        ),
{
}

/// Changing an assignment is for the user themself or a moderator: any
/// other caller is turned away with `Unauthorized` and the store untouched,
/// while the user themself passes authorization, and assigning themself an
/// existing flair succeeds.
pub proof fn lemma_assignment_authorization(
    s: StoreView,
    fact: IdentityFact,
    user: Seq<char>,
    community: Seq<char>,
    name: Seq<char>,
    t: int,
)
    ensures
        fact@.actor_id != user && !moderates(fact@, community) ==> put_user_flair_step(
            s,
            OracleOutcome::Fact(fact),
            user,
            community,
            name,
            t,
        ) == (s, Err::<(), FlairError>(FlairError::Unauthorized)),
        fact@.actor_id == user && defined(s, name, community) ==> put_user_flair_step(
            s,
            OracleOutcome::Fact(fact),
            user,
            community,
            name,
            t,
        ).1 == Ok::<(), FlairError>(()),
{
}

/// Authorization fails closed: an oracle failure of any kind denies every
/// mutation outright and leaves the store untouched.
pub proof fn lemma_fail_closed(
    s: StoreView,
    outcome: OracleOutcome,
    f: FlairView,
    user: Seq<char>,
    community: Seq<char>,
    name: Seq<char>,
    t: int,
)
    requires
        !(outcome is Fact),
    ensures
        put_user_flair_step(s, outcome, user, community, name, t) == (
            s,
            Err::<(), FlairError>(FlairError::Unauthorized),
        ),
        delete_user_flair_step(s, outcome, user, community) == (
            s,
            Err::<(), FlairError>(FlairError::Unauthorized),
        ),
        put_community_flair_step(s, outcome, f) == (
            s,
            Err::<(), FlairError>(FlairError::Unauthorized),
        ),
        delete_community_flair_step(s, outcome, name, community) == (
            s,
            Err::<(), FlairError>(FlairError::Unauthorized),
        ),
{
}

/// What a viewer sees of a community's catalog: a non-moderator's listing
/// never contains a `mod_only` definition, while a moderator's listing
/// contains every definition of the community.
pub proof fn lemma_visibility(s: StoreView, community: Seq<char>)
    ensures
        forall|i: int| 0 <= i < visible_flairs(s, community, false).len() ==> !(
        #[trigger] visible_flairs(s, community, false)[i]).mod_only,
        forall|i: int| 0 <= i < visible_flairs(s, community, false).len() ==> (
        #[trigger] visible_flairs(s, community, false)[i]).community_actor_id == community,
        forall|i: int|
            0 <= i < s.flairs.len() && (#[trigger] s.flairs[i]).community_actor_id == community
                ==> visible_flairs(s, community, true).contains(s.flairs[i]),
{
    let hide_mod = visibility_pred(community, false);
    let show_all = visibility_pred(community, true);
    assert forall|i: int| 0 <= i < visible_flairs(s, community, false).len() implies !(
    #[trigger] visible_flairs(s, community, false)[i]).mod_only && visible_flairs(
        s,
        community,
        false,
    )[i].community_actor_id == community by {
        s.flairs.lemma_filter_pred(hide_mod, i);
    }
    assert forall|i: int|
        0 <= i < s.flairs.len() && (#[trigger] s.flairs[i]).community_actor_id
            == community implies visible_flairs(s, community, true).contains(s.flairs[i]) by {
        s.flairs.lemma_filter_contains(show_all, i);
    }
}

} // verus!

//! The authorization decision and the four authorized mutations, including
//! the concrete end-to-end scenario.

use flair::auth::{
    can_administer_community, can_edit_own_assignment, verify_mod, verify_user, IdentityFact,
    OracleOutcome,
};
use flair::engine::{
    delete_community_flair, delete_user_flair, put_community_flair, put_user_flair,
};
use flair::errors::FlairError;
use flair::records::Flair;
use flair::store::FlairStore;

fn fact(actor: &str, moderated: &[&str]) -> IdentityFact {
    IdentityFact {
        actor_id: actor.to_string(),
        moderated_communities: moderated.iter().map(|c| c.to_string()).collect(),
    }
}

fn veteran() -> Flair {
    Flair::new(
        "veteran".to_string(),
        "Veteran Member".to_string(),
        None,
        "communityA".to_string(),
        false,
    )
}

#[test]
fn owner_and_moderator_predicates() {
    let alice = fact("alice", &[]);
    assert!(can_edit_own_assignment(&alice, &"alice".to_string()));
    assert!(!can_edit_own_assignment(&alice, &"bob".to_string()));
    assert!(!can_administer_community(&alice, &"communityA".to_string()));

    let moderator = fact("mel", &["communityA", "communityB"]);
    assert!(can_administer_community(&moderator, &"communityA".to_string()));
    assert!(can_administer_community(&moderator, &"communityB".to_string()));
    assert!(!can_administer_community(&moderator, &"communityC".to_string()));
}

#[test]
fn assignment_decision_allows_owner_or_moderator() {
    let outcome = OracleOutcome::Fact(fact("alice", &[]));
    assert!(verify_user(&outcome, &"alice".to_string(), &"communityA".to_string()));
    assert!(!verify_user(&outcome, &"bob".to_string(), &"communityA".to_string()));

    let as_mod = OracleOutcome::Fact(fact("mel", &["communityA"]));
    assert!(verify_user(&as_mod, &"bob".to_string(), &"communityA".to_string()));
    assert!(!verify_user(&as_mod, &"bob".to_string(), &"communityB".to_string()));
}

#[test]
fn catalog_decision_allows_moderators_only() {
    let plain = OracleOutcome::Fact(fact("alice", &[]));
    assert!(!verify_mod(&plain, &"communityA".to_string()));
    let as_mod = OracleOutcome::Fact(fact("mel", &["communityA"]));
    assert!(verify_mod(&as_mod, &"communityA".to_string()));
}

#[test]
fn oracle_failures_deny_everything() {
    for outcome in [
        OracleOutcome::Unreachable,
        OracleOutcome::InvalidCredential,
        OracleOutcome::MalformedResponse,
    ] {
        assert!(!verify_user(&outcome, &"alice".to_string(), &"communityA".to_string()));
        assert!(!verify_mod(&outcome, &"communityA".to_string()));

        let mut st = FlairStore::new();
        assert_eq!(
            put_community_flair(&mut st, &outcome, veteran()),
            Err(FlairError::Unauthorized)
        );
        assert_eq!(
            put_user_flair(
                &mut st,
                &outcome,
                &"alice".to_string(),
                &"communityA".to_string(),
                &"veteran".to_string(),
            ),
            Err(FlairError::Unauthorized)
        );
        assert_eq!(
            delete_user_flair(&mut st, &outcome, &"alice".to_string(), &"communityA".to_string()),
            Err(FlairError::Unauthorized)
        );
        assert_eq!(
            delete_community_flair(
                &mut st,
                &outcome,
                &"veteran".to_string(),
                &"communityA".to_string(),
            ),
            Err(FlairError::Unauthorized)
        );
    }
}

#[test]
fn stranger_cannot_touch_anothers_assignment_but_owner_can() {
    let mut st = FlairStore::new();
    let as_mod = OracleOutcome::Fact(fact("mel", &["communityA"]));
    assert_eq!(put_community_flair(&mut st, &as_mod, veteran()), Ok(()));

    // carol is neither bob nor a moderator of communityA
    let carol = OracleOutcome::Fact(fact("carol", &["communityB"]));
    assert_eq!(
        put_user_flair(
            &mut st,
            &carol,
            &"bob".to_string(),
            &"communityA".to_string(),
            &"veteran".to_string(),
        ),
        Err(FlairError::Unauthorized)
    );
    assert!(st.get_user_flair(&"communityA".to_string(), &"bob".to_string()).is_none());

    // the same caller may change their own assignment
    assert_eq!(
        put_user_flair(
            &mut st,
            &carol,
            &"carol".to_string(),
            &"communityA".to_string(),
            &"veteran".to_string(),
        ),
        Ok(())
    );
    let worn = st.get_user_flair(&"communityA".to_string(), &"carol".to_string());
    assert_eq!(worn.expect("carol wears her flair").name, "veteran");

    // and remove it again
    assert_eq!(
        delete_user_flair(&mut st, &carol, &"carol".to_string(), &"communityA".to_string()),
        Ok(())
    );
    assert!(st.get_user_flair(&"communityA".to_string(), &"carol".to_string()).is_none());
}

#[test]
fn moderator_may_change_any_members_assignment() {
    let mut st = FlairStore::new();
    let as_mod = OracleOutcome::Fact(fact("mel", &["communityA"]));
    assert_eq!(put_community_flair(&mut st, &as_mod, veteran()), Ok(()));
    assert_eq!(
        put_user_flair(
            &mut st,
            &as_mod,
            &"bob".to_string(),
            &"communityA".to_string(),
            &"veteran".to_string(),
        ),
        Ok(())
    );
    assert_eq!(
        st.get_user_flair(&"communityA".to_string(), &"bob".to_string()).unwrap().name,
        "veteran"
    );
}

#[test]
fn plain_users_cannot_touch_the_catalog() {
    let mut st = FlairStore::new();
    let alice = OracleOutcome::Fact(fact("alice", &[]));
    assert_eq!(
        put_community_flair(&mut st, &alice, veteran()),
        Err(FlairError::Unauthorized)
    );
    assert!(st.list(&"communityA".to_string(), true).is_empty());
    assert_eq!(
        delete_community_flair(&mut st, &alice, &"veteran".to_string(), &"communityA".to_string()),
        Err(FlairError::Unauthorized)
    );
}

#[test]
fn catalog_errors_reach_the_caller_precisely() {
    let mut st = FlairStore::new();
    let as_mod = OracleOutcome::Fact(fact("mel", &["communityA"]));
    assert_eq!(put_community_flair(&mut st, &as_mod, veteran()), Ok(()));
    assert_eq!(
        put_community_flair(&mut st, &as_mod, veteran()),
        Err(FlairError::Conflict)
    );
    assert_eq!(
        delete_community_flair(&mut st, &as_mod, &"ghost".to_string(), &"communityA".to_string()),
        Err(FlairError::NotFound)
    );
}

#[test]
fn veteran_round_trip() {
    let mut st = FlairStore::new();
    let as_mod = OracleOutcome::Fact(fact("mel", &["communityA"]));
    let as_alice = OracleOutcome::Fact(fact("alice", &[]));

    assert_eq!(put_community_flair(&mut st, &as_mod, veteran()), Ok(()));
    assert_eq!(
        put_user_flair(
            &mut st,
            &as_alice,
            &"alice".to_string(),
            &"communityA".to_string(),
            &"veteran".to_string(),
        ),
        Ok(())
    );

    let worn = st
        .get_user_flair(&"communityA".to_string(), &"alice".to_string())
        .expect("alice wears the veteran flair");
    assert_eq!(worn.name, "veteran");
    assert_eq!(worn.display_name, "Veteran Member");
    assert_eq!(worn.path, None);
    assert_eq!(worn.community_actor_id, "communityA");
    assert!(!worn.mod_only);

    assert_eq!(
        delete_community_flair(&mut st, &as_mod, &"veteran".to_string(), &"communityA".to_string()),
        Ok(())
    );
    assert!(st.get_user_flair(&"communityA".to_string(), &"alice".to_string()).is_none());
}

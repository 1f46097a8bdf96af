//! The catalog and assignment store, exercised end to end through its
//! public operations.

use flair::errors::FlairError;
use flair::records::Flair;
use flair::store::FlairStore;

fn veteran() -> Flair {
    Flair::new(
        "veteran".to_string(),
        "Veteran Member".to_string(),
        None,
        "communityA".to_string(),
        false,
    )
}

#[test]
fn record_constructors_carry_their_fields() {
    let f = Flair::new(
        "veteran".to_string(),
        "Veteran Member".to_string(),
        Some("img/veteran.png".to_string()),
        "communityA".to_string(),
        true,
    );
    assert_eq!(f.name, "veteran");
    assert_eq!(f.display_name, "Veteran Member");
    assert_eq!(f.path.as_deref(), Some("img/veteran.png"));
    assert_eq!(f.community_actor_id, "communityA");
    assert!(f.mod_only);

    let uf = flair::records::UserFlair::new(
        "alice".to_string(),
        "veteran".to_string(),
        "communityA".to_string(),
        1700000000,
    );
    assert_eq!(uf.user_actor_id, "alice");
    assert_eq!(uf.flair_name, "veteran");
    assert_eq!(uf.flair_community_actor_id, "communityA");
    assert_eq!(uf.assigned_on, 1700000000);
}

#[test]
fn define_then_redefine_conflicts() {
    let mut st = FlairStore::new();
    assert_eq!(st.define(veteran()), Ok(()));
    // same key, different payload: refused, first definition kept
    let shadow = Flair::new(
        "veteran".to_string(),
        "Impostor".to_string(),
        Some("img/other.png".to_string()),
        "communityA".to_string(),
        true,
    );
    assert_eq!(st.define(shadow), Err(FlairError::Conflict));
    let listed = st.list(&"communityA".to_string(), true);
    assert_eq!(listed.len(), 1);
    assert_eq!(listed[0].display_name, "Veteran Member");
    assert_eq!(listed[0].path, None);
    assert!(!listed[0].mod_only);
}

#[test]
fn same_name_in_another_community_is_no_conflict() {
    let mut st = FlairStore::new();
    assert_eq!(st.define(veteran()), Ok(()));
    let elsewhere = Flair::new(
        "veteran".to_string(),
        "Veteran Member".to_string(),
        None,
        "communityB".to_string(),
        false,
    );
    assert_eq!(st.define(elsewhere), Ok(()));
}

#[test]
fn assign_twice_keeps_only_the_second() {
    let mut st = FlairStore::new();
    assert_eq!(st.define(veteran()), Ok(()));
    let newcomer = Flair::new(
        "newcomer".to_string(),
        "New Here".to_string(),
        None,
        "communityA".to_string(),
        false,
    );
    assert_eq!(st.define(newcomer), Ok(()));

    let alice = "alice".to_string();
    let community = "communityA".to_string();
    assert_eq!(st.assign(&alice, &community, &"veteran".to_string(), 100), Ok(()));
    assert_eq!(st.assign(&alice, &community, &"newcomer".to_string(), 200), Ok(()));

    let worn = st.get_user_flair(&community, &alice).expect("alice wears a flair");
    assert_eq!(worn.name, "newcomer");
    // exactly one row: removing it once leaves nothing behind
    st.unassign(&alice, &community);
    assert!(st.get_user_flair(&community, &alice).is_none());
}

#[test]
fn undefine_cascades_to_assignments() {
    let mut st = FlairStore::new();
    let alice = "alice".to_string();
    let community = "communityA".to_string();
    assert_eq!(st.define(veteran()), Ok(()));
    assert_eq!(st.assign(&alice, &community, &"veteran".to_string(), 100), Ok(()));
    assert!(st.get_user_flair(&community, &alice).is_some());

    assert_eq!(st.undefine(&"veteran".to_string(), &community), Ok(()));
    assert!(st.get_user_flair(&community, &alice).is_none());
    assert!(st.list(&community, true).is_empty());
}

#[test]
fn undefine_missing_is_not_found() {
    let mut st = FlairStore::new();
    assert_eq!(
        st.undefine(&"veteran".to_string(), &"communityA".to_string()),
        Err(FlairError::NotFound)
    );
}

#[test]
fn assign_undefined_flair_is_rejected() {
    let mut st = FlairStore::new();
    let alice = "alice".to_string();
    let community = "communityA".to_string();
    assert_eq!(
        st.assign(&alice, &community, &"veteran".to_string(), 100),
        Err(FlairError::NoSuchFlair)
    );
    assert!(st.get_user_flair(&community, &alice).is_none());
}

#[test]
fn assign_checks_the_community_of_the_definition() {
    let mut st = FlairStore::new();
    assert_eq!(st.define(veteran()), Ok(()));
    // defined in communityA only
    assert_eq!(
        st.assign(&"alice".to_string(), &"communityB".to_string(), &"veteran".to_string(), 100),
        Err(FlairError::NoSuchFlair)
    );
}

#[test]
fn unassign_is_idempotent() {
    let mut st = FlairStore::new();
    let alice = "alice".to_string();
    let community = "communityA".to_string();
    st.unassign(&alice, &community);
    assert_eq!(st.define(veteran()), Ok(()));
    assert_eq!(st.assign(&alice, &community, &"veteran".to_string(), 100), Ok(()));
    st.unassign(&alice, &community);
    st.unassign(&alice, &community);
    assert!(st.get_user_flair(&community, &alice).is_none());
}

#[test]
fn empty_store_reads() {
    let st = FlairStore::new();
    assert!(st.get_user_flair(&"communityA".to_string(), &"alice".to_string()).is_none());
    assert!(st.list(&"communityA".to_string(), true).is_empty());
}

#[test]
fn listing_filters_mod_only_and_keeps_order() {
    let mut st = FlairStore::new();
    assert_eq!(st.define(veteran()), Ok(()));
    let council = Flair::new(
        "council".to_string(),
        "Council".to_string(),
        Some("img/council.png".to_string()),
        "communityA".to_string(),
        true,
    );
    assert_eq!(st.define(council), Ok(()));
    let helper = Flair::new(
        "helper".to_string(),
        "Helper".to_string(),
        None,
        "communityA".to_string(),
        false,
    );
    assert_eq!(st.define(helper), Ok(()));

    let public = st.list_community_flairs(&"communityA".to_string(), false);
    let names: Vec<&str> = public.iter().map(|f| f.name.as_str()).collect();
    assert_eq!(names, ["veteran", "helper"]);
    assert!(public.iter().all(|f| !f.mod_only));

    let for_mods = st.list_community_flairs(&"communityA".to_string(), true);
    let names: Vec<&str> = for_mods.iter().map(|f| f.name.as_str()).collect();
    assert_eq!(names, ["veteran", "council", "helper"]);
}

#[test]
fn listing_is_per_community() {
    let mut st = FlairStore::new();
    assert_eq!(st.define(veteran()), Ok(()));
    let other = Flair::new(
        "veteran".to_string(),
        "Veteran Member".to_string(),
        None,
        "communityB".to_string(),
        false,
    );
    assert_eq!(st.define(other), Ok(()));
    assert_eq!(st.list(&"communityA".to_string(), true).len(), 1);
    assert_eq!(st.list(&"communityB".to_string(), true).len(), 1);
    assert!(st.list(&"communityC".to_string(), true).is_empty());
}

#[test]
fn own_mod_only_flair_is_returned() {
    let mut st = FlairStore::new();
    let council = Flair::new(
        "council".to_string(),
        "Council".to_string(),
        None,
        "communityA".to_string(),
        true,
    );
    assert_eq!(st.define(council), Ok(()));
    let mod_user = "mod".to_string();
    let community = "communityA".to_string();
    assert_eq!(st.assign(&mod_user, &community, &"council".to_string(), 5), Ok(()));
    // a direct lookup of the wearer sees the flair even though it is mod_only
    let worn = st.get_user_flair(&community, &mod_user).expect("flair visible to its wearer");
    assert_eq!(worn.name, "council");
    assert!(worn.mod_only);
}

//! The two record types the engine stores: flair definitions and per-user
//! flair assignments, together with their mathematical views.

use vstd::prelude::*;

verus! {

/// A flair definition, keyed by `(name, community_actor_id)`.
pub struct Flair {
    /// Internal name; half of the natural key.
    pub name: String,
    /// Human-readable label shown beside a user's posts.
    pub display_name: String,
    /// Optional image reference.
    pub path: Option<String>,
    /// Community that owns the definition; the other half of the key.
    pub community_actor_id: String,
    /// When true, only community moderators see or wear the flair.
    pub mod_only: bool,
}

/// Mathematical value of a [`Flair`].
#[verifier::ext_equal]
pub struct FlairView {
    pub name: Seq<char>,
    pub display_name: Seq<char>,
    pub path: Option<Seq<char>>,
    pub community_actor_id: Seq<char>,
    pub mod_only: bool,
}

impl View for Flair {
    type V = FlairView;

    open spec fn view(&self) -> FlairView {
        FlairView {
            name: self.name@,
            display_name: self.display_name@,
            path: match self.path {
                Some(p) => Some(p@),
                None => None,
            },
            community_actor_id: self.community_actor_id@,
            mod_only: self.mod_only,
        }
    }
}

impl Flair {
    pub fn new(
        name: String,
        display_name: String,
        path: Option<String>,
        community_actor_id: String,
        mod_only: bool,
    ) -> (r: Self)
        ensures
            r@ == (FlairView {
                name: name@,
                display_name: display_name@,
                path: match path {
                    Some(p) => Some(p@),
                    None => None,
                },
                community_actor_id: community_actor_id@,
                mod_only: mod_only,
            }),
    {
        let r = Self { name, display_name, path, community_actor_id, mod_only };
        r
    }
}

impl Clone for Flair {
    fn clone(&self) -> (r: Self)
        ensures
            r@ == self@,
    {
        Flair {
            name: self.name.clone(),
            display_name: self.display_name.clone(),
            path: match &self.path {
                Some(p) => Some(p.clone()),
                None => None,
            },
            community_actor_id: self.community_actor_id.clone(),
            mod_only: self.mod_only,
        }
    }
}

/// A user's flair in one community, keyed by
/// `(user_actor_id, flair_community_actor_id)` and referring to the
/// definition `(flair_name, flair_community_actor_id)`.
pub struct UserFlair {
    pub user_actor_id: String,
    pub flair_name: String,
    pub flair_community_actor_id: String,
    /// Seconds since the Unix epoch, UTC.
    pub assigned_on: i64,
}

/// Mathematical value of a [`UserFlair`].
#[verifier::ext_equal]
pub struct UserFlairView {
    pub user_actor_id: Seq<char>,
    pub flair_name: Seq<char>,
    pub flair_community_actor_id: Seq<char>,
    pub assigned_on: int,
}

impl View for UserFlair {
    type V = UserFlairView;

    open spec fn view(&self) -> UserFlairView {
        UserFlairView {
            user_actor_id: self.user_actor_id@,
            flair_name: self.flair_name@,
            flair_community_actor_id: self.flair_community_actor_id@,
            assigned_on: self.assigned_on as int,
        }
    }
}

impl UserFlair {
    pub fn new(
        user_actor_id: String,
        flair_name: String,
        flair_community_actor_id: String,
        assigned_on: i64,
    ) -> (r: Self)
        ensures
            r@ == (UserFlairView {
                user_actor_id: user_actor_id@,
                flair_name: flair_name@,
                flair_community_actor_id: flair_community_actor_id@,
                assigned_on: assigned_on as int,
            }),
    {
        let r = Self { user_actor_id, flair_name, flair_community_actor_id, assigned_on };
        r
    }
}

impl Clone for UserFlair {
    fn clone(&self) -> (r: Self)
        ensures
            r@ == self@,
    {
        UserFlair {
            user_actor_id: self.user_actor_id.clone(),
            flair_name: self.flair_name.clone(),
            flair_community_actor_id: self.flair_community_actor_id.clone(),
            assigned_on: self.assigned_on,
        }
    }
}

} // verus!

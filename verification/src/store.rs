//! The flair catalog and the assignment store: one value holding both
//! relations, every operation proved to implement its step function from
//! [`crate::model`] and to preserve the store invariant [`wf`].

use vstd::prelude::*;
use crate::errors::FlairError;
use crate::model::{
    assign_step, assigned, assignment_has_key, assignment_of, assignment_refers_to, define_step, defined,
    empty_store, flair_has_key, flair_of, undefine_step, unassign_step, user_flair_of,
    visibility_pred, visible_flairs, wf, StoreView,
};
use crate::records::{Flair, FlairView, UserFlair, UserFlairView};
use crate::seq_lemmas::{
    lemma_filter_keeps_distinct_keys, lemma_filter_membership, lemma_filter_push,
};

verus! {

/// Mathematical contents of a sequence of definition records.
pub open spec fn flair_seq_view(v: Seq<Flair>) -> Seq<FlairView> {
    Seq::new(v.len(), |i: int| v[i]@)
}

/// Mathematical contents of a sequence of assignment records.
pub open spec fn user_flair_seq_view(v: Seq<UserFlair>) -> Seq<UserFlairView> {
    Seq::new(v.len(), |i: int| v[i]@)
}

/// Both relations of the engine, in insertion order.
pub struct FlairStore {
    flairs: Vec<Flair>,
    user_flairs: Vec<UserFlair>,
}

impl View for FlairStore {
    type V = StoreView;

    closed spec fn view(&self) -> StoreView {
        StoreView {
            flairs: flair_seq_view(self.flairs@),
            user_flairs: user_flair_seq_view(self.user_flairs@),
        }
    }
}

impl FlairStore {
    /// The empty store, the state every deployment starts from.
    pub fn new() -> (r: Self)
        ensures
            r@ == empty_store(),
            wf(r@),
    {
        let r = FlairStore { flairs: Vec::new(), user_flairs: Vec::new() };
        proof {
            assert(r@ =~= empty_store());
        }
        r
    }

    /// Index of the definition keyed `(name, community_actor_id)`, if any.
    fn find_flair(&self, name: &String, community_actor_id: &String) -> (r: Option<usize>)
        ensures
            match r {
                Some(i) => 0 <= i < self@.flairs.len()
                    && flair_has_key(self@.flairs[i as int], name@, community_actor_id@),
                None => !defined(self@, name@, community_actor_id@),
            },
    {
        let mut i: usize = 0;
        while i < self.flairs.len()
            invariant
                i <= self.flairs.len(),
                forall|j: int| 0 <= j < i
                    ==> !flair_has_key(#[trigger] self@.flairs[j], name@, community_actor_id@),
            decreases self.flairs.len() - i,
        {
            let f = &self.flairs[i];
            if f.name == *name && f.community_actor_id == *community_actor_id {
                return Some(i);
            }
            i = i + 1;
        }
        None
    }

    /// Index of the assignment keyed `(user_actor_id, community_actor_id)`,
    /// if any.
    fn find_assignment(&self, user_actor_id: &String, community_actor_id: &String) -> (r: Option<
        usize,
    >)
        ensures
            match r {
                Some(i) => 0 <= i < self@.user_flairs.len()
                    && assignment_has_key(self@.user_flairs[i as int], user_actor_id@, community_actor_id@),
                None => !assigned(self@, user_actor_id@, community_actor_id@),
            },
    {
        let mut i: usize = 0;
        while i < self.user_flairs.len()
            invariant
                i <= self.user_flairs.len(),
                forall|j: int| 0 <= j < i
                    ==> !assignment_has_key(#[trigger] self@.user_flairs[j], user_actor_id@, community_actor_id@),
            decreases self.user_flairs.len() - i,
        {
            let a = &self.user_flairs[i];
            if a.user_actor_id == *user_actor_id && a.flair_community_actor_id == *community_actor_id {
                return Some(i);
            }
            i = i + 1;
        }
        None
    }

    /// Create a flair definition. Reports `Conflict`, changing nothing, when
    /// the `(name, community_actor_id)` key is already taken.
    pub fn define(&mut self, f: Flair) -> (r: Result<(), FlairError>)
        requires
            wf(old(self)@),
        ensures
            wf(final(self)@),
            final(self)@ == define_step(old(self)@, f@).0,
            r == define_step(old(self)@, f@).1,
    {
        if self.find_flair(&f.name, &f.community_actor_id).is_some() {
            return Err(FlairError::Conflict);
        }
        let ghost prior = self@;
        let ghost fv = f@;
        self.flairs.push(f);
        proof {
            assert(self@.flairs =~= prior.flairs.push(fv));
            assert(self@ =~= define_step(prior, fv).0);
            // the fresh key keeps definition keys unique, and every
            // assignment's referent is still present
            assert forall|i: int| 0 <= i < self@.user_flairs.len()
                implies defined(self@, (#[trigger] self@.user_flairs[i]).flair_name, self@.user_flairs[i].flair_community_actor_id) by {
                let k = choose|k: int| 0 <= k < prior.flairs.len()
                    && flair_has_key(#[trigger] prior.flairs[k], prior.user_flairs[i].flair_name, prior.user_flairs[i].flair_community_actor_id);
                assert(flair_has_key(self@.flairs[k], self@.user_flairs[i].flair_name, self@.user_flairs[i].flair_community_actor_id));
            }
        }
        Ok(())
    }

    /// Remove a flair definition and, atomically with it, every assignment
    /// that referenced it. Reports `NotFound`, changing nothing, when the key
    /// does not exist.
    pub fn undefine(&mut self, name: &String, community_actor_id: &String) -> (r: Result<
        (),
        FlairError,
    >)
        requires
            wf(old(self)@),
        ensures
            wf(final(self)@),
            final(self)@ == undefine_step(old(self)@, name@, community_actor_id@).0,
            r == undefine_step(old(self)@, name@, community_actor_id@).1,
    {
        if self.find_flair(name, community_actor_id).is_none() {
            return Err(FlairError::NotFound);
        }
        let ghost prior = self@;
        let ghost fpred = |f: FlairView| !flair_has_key(f, name@, community_actor_id@);
        let ghost apred = |a: UserFlairView| !assignment_refers_to(a, name@, community_actor_id@);

        let mut kept_flairs: Vec<Flair> = Vec::new();
        let mut i: usize = 0;
        while i < self.flairs.len()
            invariant
                i <= self.flairs.len(),
                self@ == prior,
                fpred == (|f: FlairView| !flair_has_key(f, name@, community_actor_id@)),
                flair_seq_view(kept_flairs@) == prior.flairs.take(i as int).filter(fpred),
            decreases self.flairs.len() - i,
        {
            let f = &self.flairs[i];
            let ghost before = flair_seq_view(kept_flairs@);
            if !(f.name == *name && f.community_actor_id == *community_actor_id) {
                kept_flairs.push(f.clone());
                proof {
                    assert(flair_seq_view(kept_flairs@) =~= before.push(prior.flairs[i as int]));
                }
            }
            proof {
                assert(prior.flairs.take(i + 1) =~= prior.flairs.take(i as int).push(
                    prior.flairs[i as int],
                ));
                lemma_filter_push(prior.flairs.take(i as int), prior.flairs[i as int], fpred);
            }
            i = i + 1;
        }

        let mut kept_assignments: Vec<UserFlair> = Vec::new();
        let mut k: usize = 0;
        while k < self.user_flairs.len()
            invariant
                k <= self.user_flairs.len(),
                self@ == prior,
                apred == (|a: UserFlairView| !assignment_refers_to(a, name@, community_actor_id@)),
                user_flair_seq_view(kept_assignments@) == prior.user_flairs.take(k as int).filter(apred),
            decreases self.user_flairs.len() - k,
        {
            let a = &self.user_flairs[k];
            let ghost before = user_flair_seq_view(kept_assignments@);
            if !(a.flair_name == *name && a.flair_community_actor_id == *community_actor_id) {
                kept_assignments.push(a.clone());
                proof {
                    assert(user_flair_seq_view(kept_assignments@) =~= before.push(
                        prior.user_flairs[k as int],
                    ));
                }
            }
            proof {
                assert(prior.user_flairs.take(k + 1) =~= prior.user_flairs.take(k as int).push(
                    prior.user_flairs[k as int],
                ));
                lemma_filter_push(prior.user_flairs.take(k as int), prior.user_flairs[k as int], apred);
            }
            k = k + 1;
        }

        self.flairs = kept_flairs;
        self.user_flairs = kept_assignments;

        proof {
            assert(prior.flairs.take(prior.flairs.len() as int) =~= prior.flairs);
            assert(prior.user_flairs.take(prior.user_flairs.len() as int) =~= prior.user_flairs);
            assert(self@ =~= undefine_step(prior, name@, community_actor_id@).0);
            self.lemma_undefine_preserves_wf(prior, name@, community_actor_id@, fpred, apred);
        }
        Ok(())
    }

    /// The invariant survives a cascade delete: filtering keeps both key
    /// sets unique, and a kept assignment's referent was not the removed
    /// definition, so it was kept too.
    proof fn lemma_undefine_preserves_wf(
        &self,
        prior: StoreView,
        name: Seq<char>,
        community: Seq<char>,
        fpred: spec_fn(FlairView) -> bool,
        apred: spec_fn(UserFlairView) -> bool,
    )
        requires
            wf(prior),
            fpred == (|f: FlairView| !flair_has_key(f, name, community)),
            apred == (|a: UserFlairView| !assignment_refers_to(a, name, community)),
            self@.flairs == prior.flairs.filter(fpred),
            self@.user_flairs == prior.user_flairs.filter(apred),
        ensures
            wf(self@),
    {
        lemma_filter_keeps_distinct_keys(
            prior.flairs,
            fpred,
            |f: FlairView| (f.name, f.community_actor_id),
        );
        lemma_filter_keeps_distinct_keys(
            prior.user_flairs,
            apred,
            |a: UserFlairView| (a.user_actor_id, a.flair_community_actor_id),
        );
        assert forall|i: int| 0 <= i < self@.user_flairs.len()
            implies defined(self@, (#[trigger] self@.user_flairs[i]).flair_name, self@.user_flairs[i].flair_community_actor_id) by {
            let a = self@.user_flairs[i];
            lemma_filter_membership(prior.user_flairs, apred, i);
            prior.user_flairs.lemma_filter_pred(apred, i);
            let j = choose|j: int| 0 <= j < prior.user_flairs.len() && prior.user_flairs[j] == a;
            assert(defined(prior, a.flair_name, a.flair_community_actor_id));
            let g = choose|g: int| 0 <= g < prior.flairs.len()
                && flair_has_key(#[trigger] prior.flairs[g], a.flair_name, a.flair_community_actor_id);
            assert(fpred(prior.flairs[g]));
            prior.flairs.lemma_filter_contains(fpred, g);
            let h = choose|h: int| 0 <= h < self@.flairs.len() && self@.flairs[h] == prior.flairs[g];
            assert(flair_has_key(self@.flairs[h], a.flair_name, a.flair_community_actor_id));
        }
    }

    /// Assign a flair to a user: one atomic replace-or-insert for the
    /// `(user_actor_id, community_actor_id)` key. Reports `NoSuchFlair`,
    /// changing nothing, when the named definition does not exist.
    pub fn assign(
        &mut self,
        user_actor_id: &String,
        community_actor_id: &String,
        flair_name: &String,
        assigned_on: i64,
    ) -> (r: Result<(), FlairError>)
        requires
            wf(old(self)@),
        ensures
            wf(final(self)@),
            final(self)@ == assign_step(
                old(self)@,
                user_actor_id@,
                community_actor_id@,
                flair_name@,
                assigned_on as int,
            ).0,
            r == assign_step(
                old(self)@,
                user_actor_id@,
                community_actor_id@,
                flair_name@,
                assigned_on as int,
            ).1,
    {
        if self.find_flair(flair_name, community_actor_id).is_none() {
            return Err(FlairError::NoSuchFlair);
        }
        let ghost prior = self@;
        let ghost apred = |a: UserFlairView| !assignment_has_key(a, user_actor_id@, community_actor_id@);

        let mut kept: Vec<UserFlair> = Vec::new();
        let mut i: usize = 0;
        while i < self.user_flairs.len()
            invariant
                i <= self.user_flairs.len(),
                self@ == prior,
                apred == (|a: UserFlairView| !assignment_has_key(a, user_actor_id@, community_actor_id@)),
                user_flair_seq_view(kept@) == prior.user_flairs.take(i as int).filter(apred),
            decreases self.user_flairs.len() - i,
        {
            let a = &self.user_flairs[i];
            let ghost before = user_flair_seq_view(kept@);
            if !(a.user_actor_id == *user_actor_id && a.flair_community_actor_id == *community_actor_id) {
                kept.push(a.clone());
                proof {
                    assert(user_flair_seq_view(kept@) =~= before.push(prior.user_flairs[i as int]));
                }
            }
            proof {
                assert(prior.user_flairs.take(i + 1) =~= prior.user_flairs.take(i as int).push(
                    prior.user_flairs[i as int],
                ));
                lemma_filter_push(prior.user_flairs.take(i as int), prior.user_flairs[i as int], apred);
            }
            i = i + 1;
        }
        let ghost without = user_flair_seq_view(kept@);

        let row = UserFlair::new(
            user_actor_id.clone(),
            flair_name.clone(),
            community_actor_id.clone(),
            assigned_on,
        );
        let ghost rowv = row@;
        kept.push(row);
        self.user_flairs = kept;

        proof {
            assert(prior.user_flairs.take(prior.user_flairs.len() as int) =~= prior.user_flairs);
            assert(user_flair_seq_view(self.user_flairs@) =~= without.push(rowv));
            assert(self@ =~= assign_step(
                prior,
                user_actor_id@,
                community_actor_id@,
                flair_name@,
                assigned_on as int,
            ).0);
            self.lemma_assign_preserves_wf(prior, user_actor_id@, community_actor_id@, flair_name@, rowv, apred);
        }
        Ok(())
    }

    /// The invariant survives an upsert: the replaced key occurs only in the
    /// appended row, and that row references the definition just looked up.
    proof fn lemma_assign_preserves_wf(
        &self,
        prior: StoreView,
        user: Seq<char>,
        community: Seq<char>,
        name: Seq<char>,
        rowv: UserFlairView,
        apred: spec_fn(UserFlairView) -> bool,
    )
        requires
            wf(prior),
            defined(prior, name, community),
            apred == (|a: UserFlairView| !assignment_has_key(a, user, community)),
            rowv == (UserFlairView {
                user_actor_id: user,
                flair_name: name,
                flair_community_actor_id: community,
                assigned_on: rowv.assigned_on,
            }),
            self@.flairs == prior.flairs,
            self@.user_flairs == prior.user_flairs.filter(apred).push(rowv),
        ensures
            wf(self@),
    {
        let without = prior.user_flairs.filter(apred);
        lemma_filter_keeps_distinct_keys(
            prior.user_flairs,
            apred,
            |a: UserFlairView| (a.user_actor_id, a.flair_community_actor_id),
        );
        assert forall|i: int| 0 <= i < without.len()
            implies !assignment_has_key(#[trigger] without[i], user, community) by {
            prior.user_flairs.lemma_filter_pred(apred, i);
        }
        assert forall|i: int| 0 <= i < self@.user_flairs.len()
            implies defined(self@, (#[trigger] self@.user_flairs[i]).flair_name, self@.user_flairs[i].flair_community_actor_id) by {
            let a = self@.user_flairs[i];
            if i < without.len() {
                lemma_filter_membership(prior.user_flairs, apred, i);
                let j = choose|j: int| 0 <= j < prior.user_flairs.len() && prior.user_flairs[j] == a;
                assert(defined(prior, a.flair_name, a.flair_community_actor_id));
            } else {
                assert(a == rowv);
            }
        }
    }

    /// Remove a user's assignment in a community. Idempotent: removing an
    /// absent assignment simply leaves the store as it is.
    pub fn unassign(&mut self, user_actor_id: &String, community_actor_id: &String)
        requires
            wf(old(self)@),
        ensures
            wf(final(self)@),
            final(self)@ == unassign_step(old(self)@, user_actor_id@, community_actor_id@),
    {
        let ghost prior = self@;
        let ghost apred = |a: UserFlairView| !assignment_has_key(a, user_actor_id@, community_actor_id@);

        let mut kept: Vec<UserFlair> = Vec::new();
        let mut i: usize = 0;
        while i < self.user_flairs.len()
            invariant
                i <= self.user_flairs.len(),
                self@ == prior,
                apred == (|a: UserFlairView| !assignment_has_key(a, user_actor_id@, community_actor_id@)),
                user_flair_seq_view(kept@) == prior.user_flairs.take(i as int).filter(apred),
            decreases self.user_flairs.len() - i,
        {
            let a = &self.user_flairs[i];
            let ghost before = user_flair_seq_view(kept@);
            if !(a.user_actor_id == *user_actor_id && a.flair_community_actor_id == *community_actor_id) {
                kept.push(a.clone());
                proof {
                    assert(user_flair_seq_view(kept@) =~= before.push(prior.user_flairs[i as int]));
                }
            }
            proof {
                assert(prior.user_flairs.take(i + 1) =~= prior.user_flairs.take(i as int).push(
                    prior.user_flairs[i as int],
                ));
                lemma_filter_push(prior.user_flairs.take(i as int), prior.user_flairs[i as int], apred);
            }
            i = i + 1;
        }
        self.user_flairs = kept;

        proof {
            assert(prior.user_flairs.take(prior.user_flairs.len() as int) =~= prior.user_flairs);
            assert(self@ =~= unassign_step(prior, user_actor_id@, community_actor_id@));
            lemma_filter_keeps_distinct_keys(
                prior.user_flairs,
                apred,
                |a: UserFlairView| (a.user_actor_id, a.flair_community_actor_id),
            );
            assert forall|i: int| 0 <= i < self@.user_flairs.len()
                implies defined(self@, (#[trigger] self@.user_flairs[i]).flair_name, self@.user_flairs[i].flair_community_actor_id) by {
                let a = self@.user_flairs[i];
                lemma_filter_membership(prior.user_flairs, apred, i);
                let j = choose|j: int| 0 <= j < prior.user_flairs.len() && prior.user_flairs[j] == a;
                assert(defined(prior, a.flair_name, a.flair_community_actor_id));
            }
        }
    }

    /// The community's definitions a viewer may see, in insertion order:
    /// `mod_only` rows appear only when `include_mod_only` is set.
    pub fn list(&self, community_actor_id: &String, include_mod_only: bool) -> (r: Vec<Flair>)
        ensures
            flair_seq_view(r@) == visible_flairs(self@, community_actor_id@, include_mod_only),
    {
        let ghost vpred = visibility_pred(community_actor_id@, include_mod_only);
        let mut out: Vec<Flair> = Vec::new();
        let mut i: usize = 0;
        while i < self.flairs.len()
            invariant
                i <= self.flairs.len(),
                vpred == visibility_pred(community_actor_id@, include_mod_only),
                flair_seq_view(out@) == self@.flairs.take(i as int).filter(vpred),
            decreases self.flairs.len() - i,
        {
            let f = &self.flairs[i];
            let ghost before = flair_seq_view(out@);
            if f.community_actor_id == *community_actor_id && (include_mod_only || !f.mod_only) {
                out.push(f.clone());
                proof {
                    assert(flair_seq_view(out@) =~= before.push(self@.flairs[i as int]));
                }
            }
            proof {
                assert(self@.flairs.take(i + 1) =~= self@.flairs.take(i as int).push(
                    self@.flairs[i as int],
                ));
                lemma_filter_push(self@.flairs.take(i as int), self@.flairs[i as int], vpred);
            }
            i = i + 1;
        }
        proof {
            assert(self@.flairs.take(self@.flairs.len() as int) =~= self@.flairs);
        }
        out
    }

    /// The flair the user wears in the community: the join of their
    /// assignment with the definition it references; `None` when they wear
    /// none. The user's own flair is returned whether or not it is
    /// `mod_only`.
    pub fn get_user_flair(&self, community_actor_id: &String, user_actor_id: &String) -> (r: Option<
        Flair,
    >)
        requires
            wf(self@),
        ensures
            match r {
                Some(f) => user_flair_of(self@, community_actor_id@, user_actor_id@) == Some(f@),
                None => user_flair_of(self@, community_actor_id@, user_actor_id@) is None,
            },
    {
        let assignment_index = match self.find_assignment(user_actor_id, community_actor_id) {
            Some(i) => i,
            None => {
                return None;
            },
        };
        let ghost av = self@.user_flairs[assignment_index as int];
        proof {
            assert(assigned(self@, user_actor_id@, community_actor_id@));
            // both the found row and the one the model names carry the same
            // key, and assignment keys are unique
            assert(assignment_of(self@, user_actor_id@, community_actor_id@) == av);
        }
        let row_name = self.user_flairs[assignment_index].flair_name.clone();
        match self.find_flair(&row_name, community_actor_id) {
            Some(j) => {
                proof {
                    assert(flair_of(self@, av.flair_name, community_actor_id@) == self@.flairs[j as int]);
                }
                Some(self.flairs[j].clone())
            },
            None => {
                proof {
                    // referential integrity says the referenced definition
                    // exists, so the lookup cannot miss
                    assert(defined(self@, av.flair_name, av.flair_community_actor_id));
                    assert(false);
                }
                None
            },
        }
    }

    /// The read the transport layer serves for a community listing: the
    /// catalog filtered by the requester's moderator status.
    pub fn list_community_flairs(&self, community_actor_id: &String, requester_is_mod: bool) -> (r:
        Vec<Flair>)
        ensures
            flair_seq_view(r@) == visible_flairs(self@, community_actor_id@, requester_is_mod),
    {
        self.list(community_actor_id, requester_is_mod)
    }
}

} // verus!

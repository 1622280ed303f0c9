//! The storage contract the session service depends on.
//!
//! The service never touches durable storage directly: it is handed an
//! implementation of [`SessionRepository`] and performs one logical
//! operation against it per call.  Holding the repository by `&mut` for the
//! whole of a service call is what serializes the read-then-write sequences
//! (the existence check and the limit check of `save`): an implementation
//! maps one service call to one transaction, so two concurrent calls for
//! the same user can never interleave between the check and the write.

use crate::SerialId;
use crate::outcome::Outcome;
use crate::session::{Session, SessionKey, SessionView, key_of};
use vstd::prelude::*;

verus! {

/// Declared storage-level condition: the requested record is not there.
/// This is an expected outcome, distinct from an infrastructure failure.
#[derive(Debug, Clone, Copy, PartialEq, Eq, Structural)]
pub struct EntityNotFoundError;

/// Declared storage-level condition: a record with the same natural key is
/// already there.
#[derive(Debug, Clone, Copy, PartialEq, Eq, Structural)]
pub struct EntityAlreadyExistError;

/// The abstract content of a session store: at most one session per
/// `(user_id, metadata)` natural key, by construction of the map.
pub type SessionStore = Map<SessionKey, SessionView>;

/// The keys of the user's sessions that are not yet expired at time `now`.
pub open spec fn live_keys(store: SessionStore, user_id: SerialId, now: u64) -> Set<SessionKey> {
    store.dom().filter(|k: SessionKey| k.user_id == user_id && !store[k].is_expired_at(now))
}

/// How many not-yet-expired sessions the user holds at time `now`.
pub open spec fn live_count(store: SessionStore, user_id: SerialId, now: u64) -> nat {
    live_keys(store, user_id, now).len()
}

/// Every stored session lies under its own natural key: the map never
/// files a session under a key that differs from the session's own
/// `(user_id, metadata)` pair.
pub open spec fn store_wf(store: SessionStore) -> bool {
    forall|k: SessionKey| #[trigger] store.contains_key(k) ==> store[k].key() == k
}

/// Every session the user holds in `store` shows up in the sequence
/// `deleted`, found by its natural key.
pub open spec fn covers_user(
    store: SessionStore,
    deleted: Seq<SessionView>,
    user_id: SerialId,
) -> bool {
    forall|k: SessionKey|
        #[trigger] store.contains_key(k) && k.user_id == user_id ==> exists|d: int|
            0 <= d < deleted.len() && (#[trigger] deleted[d]).key() == k
}

/// The store `after` is the store `before` with every session of
/// `user_id` removed and everything else untouched.
pub open spec fn purged_user(before: SessionStore, after: SessionStore, user_id: SerialId) -> bool {
    &&& forall|k: SessionKey| #[trigger] after.contains_key(k) ==> k.user_id != user_id
    &&& forall|k: SessionKey| #[trigger] after.contains_key(k) ==> before.contains_key(k)
        && after[k] == before[k]
    &&& forall|k: SessionKey| #[trigger] before.contains_key(k) && k.user_id != user_id
        ==> after.contains_key(k)
}

/// The six storage operations the service consumes: implemented externally
/// against durable storage, or by the verified
/// [`crate::in_memory::InMemorySessionRepository`].
///
/// Every operation is fallible with an `Unexpected`-class failure; `find`
/// and `delete` additionally signal a declared not-found condition.  Each
/// operation is atomic: on an unexpected failure it leaves the store
/// unchanged, never half-applied.
pub trait SessionRepository: Sized {
    /// The abstract content of the store.
    spec fn store(&self) -> SessionStore;

    /// Implementation-specific well-formedness, established at construction
    /// and preserved by every operation.
    spec fn inv(&self) -> bool;

    /// A well-formed store holds finitely many sessions.
    proof fn lemma_inv_store_finite(&self)
        requires
            self.inv(),
        ensures
            self.store().dom().finite(),
    ;

    /// A well-formed store files every session under its own natural key.
    proof fn lemma_inv_store_wf(&self)
        requires
            self.inv(),
        ensures
            store_wf(self.store()),
    ;

    /// Looks up the session with natural key `(user_id, metadata)`.
    fn find(&mut self, user_id: SerialId, metadata: &String) -> (r: Outcome<
        Session,
        EntityNotFoundError,
    >)
        requires
            old(self).inv(),
        ensures
            final(self).inv(),
            final(self).store() == old(self).store(),
            match r {
                Outcome::Success(s) => old(self).store().contains_key(key_of(user_id, metadata@))
                    && s@ == old(self).store()[key_of(user_id, metadata@)],
                Outcome::Exception(_) => !old(self).store().contains_key(
                    key_of(user_id, metadata@),
                ),
                Outcome::Unexpected(_) => true,
            },
    ;

    /// Stores a session whose natural key is not yet taken.
    fn insert(&mut self, session: Session) -> (r: Outcome<Session, EntityAlreadyExistError>)
        requires
            old(self).inv(),
        ensures
            final(self).inv(),
            match r {
                Outcome::Success(s) => !old(self).store().contains_key(session@.key())
                    && s@ == session@
                    && final(self).store() == old(self).store().insert(session@.key(), session@),
                Outcome::Exception(_) => old(self).store().contains_key(session@.key())
                    && final(self).store() == old(self).store(),
                Outcome::Unexpected(_) => final(self).store() == old(self).store(),
            },
    ;

    /// Replaces the stored session that shares `session`'s natural key.
    fn update(&mut self, session: Session) -> (r: Outcome<Session, EntityNotFoundError>)
        requires
            old(self).inv(),
        ensures
            final(self).inv(),
            match r {
                Outcome::Success(s) => old(self).store().contains_key(session@.key())
                    && s@ == session@
                    && final(self).store() == old(self).store().insert(session@.key(), session@),
                Outcome::Exception(_) => !old(self).store().contains_key(session@.key())
                    && final(self).store() == old(self).store(),
                Outcome::Unexpected(_) => final(self).store() == old(self).store(),
            },
    ;

    /// Removes and returns the session with natural key `(user_id, metadata)`.
    fn delete(&mut self, user_id: SerialId, metadata: &String) -> (r: Outcome<
        Session,
        EntityNotFoundError,
    >)
        requires
            old(self).inv(),
        ensures
            final(self).inv(),
            match r {
                Outcome::Success(s) => old(self).store().contains_key(key_of(user_id, metadata@))
                    && s@ == old(self).store()[key_of(user_id, metadata@)] && final(self).store()
                    == old(self).store().remove(key_of(user_id, metadata@)),
                Outcome::Exception(_) => !old(self).store().contains_key(
                    key_of(user_id, metadata@),
                ) && final(self).store() == old(self).store(),
                Outcome::Unexpected(_) => final(self).store() == old(self).store(),
            },
    ;

    /// Removes every session of `user_id` in one atomic step and returns the
    /// removed records: each is a session the user held, with pairwise
    /// distinct natural keys.  Removing for a user with no sessions succeeds
    /// with an empty list; the declared exception never occurs.
    fn delete_all(&mut self, user_id: SerialId) -> (r: Outcome<Vec<Session>, EntityNotFoundError>)
        requires
            old(self).inv(),
        ensures
            final(self).inv(),
            !(r matches Outcome::Exception(_)),
            match r {
                Outcome::Success(deleted) => purged_user(
                    old(self).store(),
                    final(self).store(),
                    user_id,
                ) && (forall|i: int|
                    0 <= i < deleted@.len() ==> (#[trigger] deleted@[i])@.key().user_id == user_id
                        && old(self).store().contains_key(deleted@[i]@.key()) && old(
                        self,
                    ).store()[deleted@[i]@.key()] == deleted@[i]@) && (forall|i: int, j: int|
                    0 <= i < j < deleted@.len() ==> (#[trigger] deleted@[i])@.key() != (
                    #[trigger] deleted@[j])@.key()) && covers_user(
                    old(self).store(),
                    deleted.deep_view(),
                    user_id,
                ),
                Outcome::Exception(_) => false,
                Outcome::Unexpected(_) => final(self).store() == old(self).store(),
            },
    ;

    /// Counts the user's not-yet-expired sessions at time `now`.
    fn count_not_expired_by_user_id(&mut self, user_id: SerialId, now: u64) -> (r: Outcome<
        usize,
        EntityNotFoundError,
    >)
        requires
            old(self).inv(),
        ensures
            final(self).inv(),
            final(self).store() == old(self).store(),
            !(r matches Outcome::Exception(_)),
            match r {
                Outcome::Success(n) => n as nat == live_count(old(self).store(), user_id, now),
                Outcome::Exception(_) => false,
                Outcome::Unexpected(_) => true,
            },
    ;
}

} // verus!

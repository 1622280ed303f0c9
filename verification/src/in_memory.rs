//! A fully verified in-memory implementation of the repository contract.
//!
//! It keeps the sessions in a vector whose entries have pairwise distinct
//! natural keys, and abstracts to the key-indexed map [`map_of`].  Because
//! every operation is proved against [`crate::repository::SessionRepository`],
//! the service can be exercised against this store in tests exactly as it
//! would run against durable storage.
//!
//! The store can also be told to fail its next operations, so that callers
//! can exercise the infrastructure-failure path deterministically.

use crate::SerialId;
use crate::outcome::{Outcome, UnexpectedError};
use crate::repository::{
    EntityAlreadyExistError, EntityNotFoundError, SessionRepository, SessionStore, covers_user,
    live_count, live_keys, purged_user, store_wf,
};
use crate::session::{Session, SessionKey, SessionView, key_of};
use vstd::prelude::*;

verus! {

/// No two sessions of the sequence share a natural key.
pub open spec fn distinct_keys(s: Seq<Session>) -> bool {
    forall|i: int, j: int|
        0 <= i < j < s.len() ==> (#[trigger] s[i])@.key() != (#[trigger] s[j])@.key()
}

/// The key-indexed content of a sequence of sessions.  When the keys are
/// pairwise distinct, this is exactly one map entry per stored session.
pub open spec fn map_of(s: Seq<Session>) -> SessionStore
    decreases s.len(),
{
    if s.len() == 0 {
        Map::empty()
    } else {
        map_of(s.drop_last()).insert(s.last()@.key(), s.last()@)
    }
}

/// A key is in `map_of(s)` exactly when some entry of `s` carries it.
pub proof fn lemma_map_of_contains(s: Seq<Session>, k: SessionKey)
    ensures
        map_of(s).contains_key(k) <==> exists|i: int|
            0 <= i < s.len() && (#[trigger] s[i])@.key() == k,
    decreases s.len(),
{
    if s.len() > 0 {
        lemma_map_of_contains(s.drop_last(), k);
        assert(forall|i: int| 0 <= i < s.len() - 1 ==> s.drop_last()[i] == s[i]);
        if s.last()@.key() == k {
            assert((s[s.len() - 1])@.key() == k);
        }
    }
}

/// The content map has finitely many keys.
pub proof fn lemma_map_of_finite(s: Seq<Session>)
    ensures
        map_of(s).dom().finite(),
    decreases s.len(),
{
    if s.len() > 0 {
        lemma_map_of_finite(s.drop_last());
    }
}

/// With distinct keys, the map sends each stored session's key to that
/// session.
pub proof fn lemma_map_of_index(s: Seq<Session>, i: int)
    requires
        distinct_keys(s),
        0 <= i < s.len(),
    ensures
        map_of(s).contains_key(s[i]@.key()),
        map_of(s)[s[i]@.key()] == s[i]@,
    decreases s.len(),
{
    if i < s.len() - 1 {
        assert(distinct_keys(s.drop_last())) by {
            assert(forall|j: int| 0 <= j < s.len() - 1 ==> s.drop_last()[j] == s[j]);
        }
        lemma_map_of_index(s.drop_last(), i);
        assert(s.drop_last()[i] == s[i]);
        assert(s[i]@.key() != s.last()@.key());
    }
}

/// Dropping the last entry of the sequence restricts distinctness.
pub proof fn lemma_distinct_drop_last(s: Seq<Session>)
    requires
        distinct_keys(s),
        s.len() > 0,
    ensures
        distinct_keys(s.drop_last()),
{
    assert(forall|j: int| 0 <= j < s.len() - 1 ==> s.drop_last()[j] == s[j]);
}

/// Removing an entry of the sequence keeps the remaining keys distinct.
pub proof fn lemma_distinct_remove(s: Seq<Session>, i: int)
    requires
        distinct_keys(s),
        0 <= i < s.len(),
    ensures
        distinct_keys(s.remove(i)),
{
    assert forall|a: int, b: int| 0 <= a < b < s.remove(i).len() implies (#[trigger] s.remove(i)[a])@.key()
        != (#[trigger] s.remove(i)[b])@.key() by {
        let a0 = if a < i { a } else { a + 1 };
        let b0 = if b < i { b } else { b + 1 };
        assert(s.remove(i)[a] == s[a0]);
        assert(s.remove(i)[b] == s[b0]);
    }
}

/// Removing the entry at `i` removes exactly its key from the content map.
pub proof fn lemma_map_of_remove(s: Seq<Session>, i: int)
    requires
        distinct_keys(s),
        0 <= i < s.len(),
    ensures
        map_of(s.remove(i)) == map_of(s).remove(s[i]@.key()),
    decreases s.len(),
{
    let k = s[i]@.key();
    if i == s.len() - 1 {
        assert(s.remove(i) =~= s.drop_last());
        lemma_distinct_drop_last(s);
        lemma_map_of_contains(s.drop_last(), k);
        assert(forall|j: int| 0 <= j < s.len() - 1 ==> s.drop_last()[j] == s[j]);
        assert(!map_of(s.drop_last()).contains_key(k));
        assert(map_of(s.drop_last()).insert(k, s[i]@).remove(k) =~= map_of(s.drop_last()));
    } else {
        let t = s.drop_last();
        let kl = s.last()@.key();
        let vl = s.last()@;
        lemma_distinct_drop_last(s);
        lemma_map_of_remove(t, i);
        assert(t[i] == s[i]);
        assert(s.remove(i).drop_last() =~= t.remove(i));
        assert(s.remove(i).last() == s.last());
        assert(map_of(s.remove(i)) == map_of(t.remove(i)).insert(kl, vl));
        assert(k != kl);
        assert(map_of(t).remove(k).insert(kl, vl) =~= map_of(t).insert(kl, vl).remove(k));
    }
}

/// The content map files every session under its own natural key.
pub proof fn lemma_map_of_store_wf(s: Seq<Session>)
    ensures
        store_wf(map_of(s)),
    decreases s.len(),
{
    if s.len() > 0 {
        lemma_map_of_store_wf(s.drop_last());
    }
}

/// Adding one session under a fresh key raises the owner's live-session
/// count by one when the session is not yet expired, and leaves every
/// live-session count unchanged otherwise.
pub proof fn lemma_live_count_insert(
    store: SessionStore,
    s: SessionView,
    user_id: SerialId,
    now: u64,
)
    requires
        store.dom().finite(),
        !store.contains_key(s.key()),
    ensures
        live_count(store.insert(s.key(), s), user_id, now) == live_count(store, user_id, now) + (
        if s.user_id == user_id && !s.is_expired_at(now) {
            1nat
        } else {
            0nat
        }),
{
    let before = live_keys(store, user_id, now);
    let after = live_keys(store.insert(s.key(), s), user_id, now);
    store.dom().lemma_len_filter(
        |k: SessionKey| k.user_id == user_id && !store[k].is_expired_at(now),
    );
    if s.user_id == user_id && !s.is_expired_at(now) {
        assert(after =~= before.insert(s.key()));
    } else {
        assert(after =~= before);
    }
}

/// Session storage backed by a vector, with deterministic failure
/// injection.  `faults_remaining` counts upcoming operations that will
/// report an infrastructure failure instead of touching the store.
pub struct InMemorySessionRepository {
    sessions: Vec<Session>,
    faults_remaining: usize,
}

impl InMemorySessionRepository {
    /// The stored sessions, in storage order.
    pub closed spec fn records(&self) -> Seq<SessionView> {
        self.sessions.deep_view()
    }

    /// How many upcoming operations will report an injected infrastructure
    /// failure.  While this is zero, every operation is owed its regular
    /// outcome and never fails unexpectedly.
    pub closed spec fn pending_faults(&self) -> nat {
        self.faults_remaining as nat
    }

    /// An empty, healthy store.
    pub fn new() -> (r: InMemorySessionRepository)
        ensures
            r.inv(),
            r.store() == Map::<SessionKey, SessionView>::empty(),
            r.records() == Seq::<SessionView>::empty(),
            r.pending_faults() == 0,
    {
        let r = InMemorySessionRepository { sessions: Vec::new(), faults_remaining: 0 };
        proof {
            assert(r.records() =~= Seq::<SessionView>::empty());
        }
        r
    }

    /// Makes the next `n` operations report an infrastructure failure,
    /// leaving the stored sessions untouched.
    pub fn fail_next_operations(&mut self, n: usize)
        ensures
            final(self).inv() == old(self).inv(),
            final(self).store() == old(self).store(),
            final(self).records() == old(self).records(),
            final(self).pending_faults() == n,
    {
        self.faults_remaining = n;
    }

    /// Consumes one planned failure, if any is pending.
    fn take_fault(&mut self) -> (r: Option<UnexpectedError>)
        ensures
            final(self).inv() == old(self).inv(),
            final(self).store() == old(self).store(),
            final(self).records() == old(self).records(),
            (r is Some) == (old(self).pending_faults() > 0),
            old(self).pending_faults() > 0 ==> final(self).pending_faults() == old(
                self,
            ).pending_faults() - 1,
            old(self).pending_faults() == 0 ==> final(self).pending_faults() == 0,
    {
        if self.faults_remaining > 0 {
            self.faults_remaining = self.faults_remaining - 1;
            Some(UnexpectedError::new("session storage failure"))
        } else {
            None
        }
    }

    /// Position of the session with the given natural key, if stored.
    fn index_of(&self, user_id: SerialId, metadata: &String) -> (r: Option<usize>)
        ensures
            match r {
                Some(i) => i < self.sessions@.len() && self.sessions@[i as int]@.key() == key_of(
                    user_id,
                    metadata@,
                ),
                None => !map_of(self.sessions@).contains_key(key_of(user_id, metadata@)),
            },
    {
        let mut i: usize = 0;
        while i < self.sessions.len()
            invariant
                i <= self.sessions@.len(),
                forall|j: int|
                    0 <= j < i ==> (#[trigger] self.sessions@[j])@.key() != key_of(
                        user_id,
                        metadata@,
                    ),
            decreases self.sessions@.len() - i,
        {
            let s = &self.sessions[i];
            if s.user_id == user_id && s.metadata == *metadata {
                return Some(i);
            }
            i = i + 1;
        }
        proof {
            lemma_map_of_contains(self.sessions@, key_of(user_id, metadata@));
        }
        None
    }
}

/// With distinct keys, a store holds at most one session per natural key:
/// any two distinct stored records differ in their `(user_id, metadata)`
/// pair.  Every repository operation preserves the distinctness invariant,
/// so this holds after any sequence of operations.
pub proof fn lemma_at_most_one_session_per_key(repo: &InMemorySessionRepository)
    requires
        repo.inv(),
    ensures
        forall|i: int, j: int|
            0 <= i < j < repo.records().len() ==> (#[trigger] repo.records()[i]).key() != (
            #[trigger] repo.records()[j]).key(),
{
}

impl SessionRepository for InMemorySessionRepository {
    closed spec fn store(&self) -> SessionStore {
        map_of(self.sessions@)
    }

    closed spec fn inv(&self) -> bool {
        distinct_keys(self.sessions@)
    }

    proof fn lemma_inv_store_finite(&self) {
        lemma_map_of_finite(self.sessions@);
    }

    proof fn lemma_inv_store_wf(&self) {
        lemma_map_of_store_wf(self.sessions@);
    }

    fn find(&mut self, user_id: SerialId, metadata: &String) -> (r: Outcome<
        Session,
        EntityNotFoundError,
    >)
        ensures
            (r matches Outcome::Unexpected(_)) == (old(self).pending_faults() > 0),
            old(self).pending_faults() > 0 ==> final(self).pending_faults() == old(
                self,
            ).pending_faults() - 1,
            old(self).pending_faults() == 0 ==> final(self).pending_faults() == 0,
    {
        if let Some(e) = self.take_fault() {
            return Outcome::Unexpected(e);
        }
        match self.index_of(user_id, metadata) {
            Some(i) => {
                proof {
                    lemma_map_of_index(self.sessions@, i as int);
                }
                Outcome::Success(self.sessions[i].clone())
            },
            None => Outcome::Exception(EntityNotFoundError),
        }
    }

    fn insert(&mut self, session: Session) -> (r: Outcome<Session, EntityAlreadyExistError>)
        ensures
            (r matches Outcome::Unexpected(_)) == (old(self).pending_faults() > 0),
            old(self).pending_faults() > 0 ==> final(self).pending_faults() == old(
                self,
            ).pending_faults() - 1,
            old(self).pending_faults() == 0 ==> final(self).pending_faults() == 0,
    {
        if let Some(e) = self.take_fault() {
            return Outcome::Unexpected(e);
        }
        match self.index_of(session.user_id, &session.metadata) {
            Some(i) => {
                proof {
                    lemma_map_of_index(self.sessions@, i as int);
                }
                Outcome::Exception(EntityAlreadyExistError)
            },
            None => {
                let ghost before = self.sessions@;
                let stored = session.clone();
                self.sessions.push(session);
                proof {
                    assert(self.sessions@.drop_last() =~= before);
                    lemma_map_of_contains(before, self.sessions@.last()@.key());
                }
                Outcome::Success(stored)
            },
        }
    }

    fn update(&mut self, session: Session) -> (r: Outcome<Session, EntityNotFoundError>)
        ensures
            (r matches Outcome::Unexpected(_)) == (old(self).pending_faults() > 0),
            old(self).pending_faults() > 0 ==> final(self).pending_faults() == old(
                self,
            ).pending_faults() - 1,
            old(self).pending_faults() == 0 ==> final(self).pending_faults() == 0,
    {
        if let Some(e) = self.take_fault() {
            return Outcome::Unexpected(e);
        }
        match self.index_of(session.user_id, &session.metadata) {
            None => Outcome::Exception(EntityNotFoundError),
            Some(i) => {
                let ghost before = self.sessions@;
                let ghost k = before[i as int]@.key();
                proof {
                    lemma_map_of_remove(before, i as int);
                    lemma_distinct_remove(before, i as int);
                    lemma_map_of_contains(before.remove(i as int), k);
                    lemma_map_of_index(before, i as int);
                }
                let stored = session.clone();
                let _removed = self.sessions.remove(i);
                let ghost middle = self.sessions@;
                self.sessions.push(session);
                proof {
                    assert(self.sessions@.drop_last() =~= middle);
                    assert(map_of(self.sessions@) =~= map_of(before).insert(
                        k,
                        self.sessions@.last()@,
                    ));
                    assert forall|a: int, b: int|
                        0 <= a < b < self.sessions@.len() implies (#[trigger] self.sessions@[a])@.key()
                        != (#[trigger] self.sessions@[b])@.key() by {
                        if b < self.sessions@.len() - 1 {
                            assert(self.sessions@[a] == middle[a]);
                            assert(self.sessions@[b] == middle[b]);
                        } else {
                            assert(self.sessions@[a] == middle[a]);
                            lemma_map_of_contains(middle, self.sessions@[b]@.key());
                        }
                    }
                }
                Outcome::Success(stored)
            },
        }
    }

    fn delete(&mut self, user_id: SerialId, metadata: &String) -> (r: Outcome<
        Session,
        EntityNotFoundError,
    >)
        ensures
            (r matches Outcome::Unexpected(_)) == (old(self).pending_faults() > 0),
            old(self).pending_faults() > 0 ==> final(self).pending_faults() == old(
                self,
            ).pending_faults() - 1,
            old(self).pending_faults() == 0 ==> final(self).pending_faults() == 0,
    {
        if let Some(e) = self.take_fault() {
            return Outcome::Unexpected(e);
        }
        match self.index_of(user_id, metadata) {
            None => Outcome::Exception(EntityNotFoundError),
            Some(i) => {
                proof {
                    lemma_map_of_index(self.sessions@, i as int);
                    lemma_map_of_remove(self.sessions@, i as int);
                    lemma_distinct_remove(self.sessions@, i as int);
                }
                let removed = self.sessions.remove(i);
                Outcome::Success(removed)
            },
        }
    }

    fn delete_all(&mut self, user_id: SerialId) -> (r: Outcome<Vec<Session>, EntityNotFoundError>)
        ensures
            (r matches Outcome::Unexpected(_)) == (old(self).pending_faults() > 0),
            old(self).pending_faults() > 0 ==> final(self).pending_faults() == old(
                self,
            ).pending_faults() - 1,
            old(self).pending_faults() == 0 ==> final(self).pending_faults() == 0,
    {
        if let Some(e) = self.take_fault() {
            return Outcome::Unexpected(e);
        }
        let ghost before = map_of(self.sessions@);
        let mut deleted: Vec<Session> = Vec::new();
        let mut i: usize = 0;
        while i < self.sessions.len()
            invariant
                i <= self.sessions@.len(),
                self.pending_faults() == 0,
                distinct_keys(self.sessions@),
                forall|j: int|
                    0 <= j < i ==> (#[trigger] self.sessions@[j])@.key().user_id != user_id,
                forall|k: SessionKey| #[trigger]
                    map_of(self.sessions@).contains_key(k) ==> before.contains_key(k) && before[k]
                        == map_of(self.sessions@)[k],
                forall|k: SessionKey| #[trigger]
                    before.contains_key(k) && k.user_id != user_id ==> map_of(
                        self.sessions@,
                    ).contains_key(k),
                forall|d: int|
                    0 <= d < deleted.len() ==> (#[trigger] deleted@[d])@.key().user_id == user_id
                        && before.contains_key(deleted@[d]@.key()) && before[deleted@[d]@.key()]
                        == deleted@[d]@,
                forall|d: int|
                    0 <= d < deleted.len() ==> !map_of(self.sessions@).contains_key(
                        (#[trigger] deleted@[d])@.key(),
                    ),
                forall|a: int, b: int|
                    0 <= a < b < deleted@.len() ==> (#[trigger] deleted@[a])@.key() != (
                    #[trigger] deleted@[b])@.key(),
                forall|k: SessionKey| #[trigger]
                    before.contains_key(k) && k.user_id == user_id ==> map_of(
                        self.sessions@,
                    ).contains_key(k) || exists|d: int|
                        0 <= d < deleted@.len() && (#[trigger] deleted@[d])@.key() == k,
            decreases self.sessions@.len() - i,
        {
            if self.sessions[i].user_id == user_id {
                proof {
                    lemma_map_of_index(self.sessions@, i as int);
                    lemma_map_of_remove(self.sessions@, i as int);
                    lemma_distinct_remove(self.sessions@, i as int);
                }
                let ghost cur = self.sessions@;
                let ghost taken_so_far = deleted@;
                let removed = self.sessions.remove(i);
                deleted.push(removed);
                proof {
                    assert(forall|d: int| 0 <= d < taken_so_far.len() ==> deleted@[d]
                        == taken_so_far[d]);
                    assert(deleted@[taken_so_far.len() as int] == cur[i as int]);
                    assert forall|k: SessionKey| #[trigger]
                        before.contains_key(k) && k.user_id == user_id implies map_of(
                        self.sessions@,
                    ).contains_key(k) || exists|d: int|
                        0 <= d < deleted@.len() && (#[trigger] deleted@[d])@.key() == k by {
                        if !map_of(self.sessions@).contains_key(k) {
                            if map_of(cur).contains_key(k) {
                                assert(k == cur[i as int]@.key());
                                assert(deleted@[taken_so_far.len() as int]@.key() == k);
                            } else {
                                let d = choose|d: int|
                                    0 <= d < taken_so_far.len() && (
                                    #[trigger] taken_so_far[d])@.key() == k;
                                assert(deleted@[d]@.key() == k);
                            }
                        }
                    }
                }
            } else {
                i = i + 1;
            }
        }
        proof {
            assert forall|k: SessionKey| #[trigger]
                map_of(self.sessions@).contains_key(k) implies k.user_id != user_id by {
                lemma_map_of_contains(self.sessions@, k);
            }
            assert(purged_user(before, map_of(self.sessions@), user_id));
            assert(forall|d: int|
                0 <= d < deleted@.len() ==> (#[trigger] deleted@[d])@.key().user_id == user_id
                    && before.contains_key(deleted@[d]@.key()) && before[deleted@[d]@.key()]
                    == deleted@[d]@);
            assert forall|k: SessionKey| #[trigger]
                before.contains_key(k) && k.user_id == user_id implies exists|d: int|
                0 <= d < deleted.deep_view().len() && (#[trigger] deleted.deep_view()[d]).key()
                    == k by {
                let d = choose|d: int|
                    0 <= d < deleted@.len() && (#[trigger] deleted@[d])@.key() == k;
                assert(deleted.deep_view()[d] == deleted@[d]@);
                assert(deleted.deep_view()[d].key() == k);
            }
            assert(covers_user(before, deleted.deep_view(), user_id));
        }
        Outcome::Success(deleted)
    }

    fn count_not_expired_by_user_id(&mut self, user_id: SerialId, now: u64) -> (r: Outcome<
        usize,
        EntityNotFoundError,
    >)
        ensures
            (r matches Outcome::Unexpected(_)) == (old(self).pending_faults() > 0),
            old(self).pending_faults() > 0 ==> final(self).pending_faults() == old(
                self,
            ).pending_faults() - 1,
            old(self).pending_faults() == 0 ==> final(self).pending_faults() == 0,
    {
        if let Some(e) = self.take_fault() {
            return Outcome::Unexpected(e);
        }
        let ghost whole = self.sessions@;
        let mut n: usize = 0;
        let mut i: usize = 0;
        proof {
            assert(whole.take(0) =~= Seq::<Session>::empty());
            assert(live_keys(map_of(whole.take(0)), user_id, now) =~= Set::<SessionKey>::empty());
        }
        while i < self.sessions.len()
            invariant
                self.sessions@ == whole,
                distinct_keys(whole),
                i <= whole.len(),
                n <= i,
                n as nat == live_count(map_of(whole.take(i as int)), user_id, now),
            decreases whole.len() - i,
        {
            proof {
                let prefix = whole.take(i as int);
                let longer = whole.take(i as int + 1);
                assert(longer.drop_last() =~= prefix);
                assert(longer.last() == whole[i as int]);
                lemma_map_of_finite(prefix);
                assert(distinct_keys(longer)) by {
                    assert(forall|j: int| 0 <= j < longer.len() ==> longer[j] == whole[j]);
                }
                lemma_map_of_contains(prefix, whole[i as int]@.key());
                assert(forall|j: int| 0 <= j < prefix.len() ==> prefix[j] == whole[j]);
                lemma_live_count_insert(map_of(prefix), whole[i as int]@, user_id, now);
                assert(map_of(longer) == map_of(prefix).insert(
                    whole[i as int]@.key(),
                    whole[i as int]@,
                ));
            }
            let s = &self.sessions[i];
            if s.user_id == user_id && !s.is_expired(now) {
                n = n + 1;
            }
            i = i + 1;
        }
        proof {
            assert(whole.take(whole.len() as int) =~= whole);
        }
        Outcome::Success(n)
    }
}

} // verus!

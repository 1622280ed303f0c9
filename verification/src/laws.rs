//! Properties of the session model that relate several operations, stated
//! and proved once over the abstract store.
//!
//! The per-operation guarantees live in the `ensures` clauses of
//! [`crate::service::SessionService`] and of the repository contract; the
//! lemmas here chain those guarantees across calls: how a successful new
//! `save` moves the live-session count, what an `update`-rotated token
//! means for later `validate` calls, and where the expiry boundary lies.

use crate::SerialId;
use crate::repository::{SessionStore, live_count, live_keys, purged_user};
use crate::service::{ValidateSessionException, validate_verdict};
use crate::session::{SessionKey, SessionView, key_of};
use vstd::prelude::*;

verus! {

/// Limit enforcement, step case: storing a not-yet-expired session under a
/// fresh key raises the owner's live-session count by exactly one, so `N`
/// successful new `save` calls bring the count to `N`, at which point
/// `save`'s contract forces `SessionsLimitReached` for the next new pair.
pub proof fn lemma_new_session_raises_live_count(
    store: SessionStore,
    s: SessionView,
    now: u64,
)
    requires
        store.dom().finite(),
        !store.contains_key(s.key()),
        !s.is_expired_at(now),
    ensures
        live_count(store.insert(s.key(), s), s.user_id, now) == live_count(
            store,
            s.user_id,
            now,
        ) + 1,
{
    crate::in_memory::lemma_live_count_insert(store, s, s.user_id, now);
}

/// Refreshing an existing session in place never changes any other user's
/// live-session count, and a `save` that updates an existing pair is
/// exempt from the limit check by `save`'s own contract.
pub proof fn lemma_refresh_keeps_other_counts(
    store: SessionStore,
    s: SessionView,
    user_id: SerialId,
    now: u64,
)
    requires
        store.dom().finite(),
        store.contains_key(s.key()),
        user_id != s.user_id,
    ensures
        live_count(store.insert(s.key(), s), user_id, now) == live_count(store, user_id, now),
{
    assert(live_keys(store.insert(s.key(), s), user_id, now) =~= live_keys(store, user_id, now));
}

/// Revocation cascade: a failed `validate` (and so a failed `update` or
/// `delete`) leaves the store purged of the user, so the user holds zero
/// stored sessions afterwards, live or expired, at any time.
pub proof fn lemma_revocation_leaves_no_sessions(
    before: SessionStore,
    after: SessionStore,
    user_id: SerialId,
    now: u64,
)
    requires
        purged_user(before, after, user_id),
    ensures
        live_count(after, user_id, now) == 0,
        forall|k: SessionKey| #[trigger] after.contains_key(k) ==> k.user_id != user_id,
{
    assert(live_keys(after, user_id, now) =~= Set::<SessionKey>::empty());
}

/// Rotation: once a session's refresh token has been replaced (as a
/// successful `update` does), presenting the retired token yields
/// `InvalidRefreshToken`, and only the current token can validate.
pub proof fn lemma_rotation(
    store: SessionStore,
    user_id: SerialId,
    metadata: Seq<char>,
    retired_token: Seq<char>,
    current_token: Seq<char>,
    now: u64,
)
    requires
        store.contains_key(key_of(user_id, metadata)),
        store[key_of(user_id, metadata)].refresh_token == current_token,
        retired_token != current_token,
    ensures
        validate_verdict(store, user_id, metadata, retired_token, now) == Result::<
            SessionView,
            ValidateSessionException,
        >::Err(ValidateSessionException::InvalidRefreshToken),
        !store[key_of(user_id, metadata)].is_expired_at(now) ==> validate_verdict(
            store,
            user_id,
            metadata,
            current_token,
            now,
        ) == Result::<SessionView, ValidateSessionException>::Ok(
            store[key_of(user_id, metadata)],
        ),
{
}

/// Expiry boundary: a session whose `expires_at` equals "now" is already
/// expired, and a matching token validates at any strictly earlier time,
/// one microsecond before included.
pub proof fn lemma_expiry_boundary(
    store: SessionStore,
    user_id: SerialId,
    metadata: Seq<char>,
    refresh_token: Seq<char>,
)
    requires
        store.contains_key(key_of(user_id, metadata)),
        store[key_of(user_id, metadata)].refresh_token == refresh_token,
    ensures
        validate_verdict(
            store,
            user_id,
            metadata,
            refresh_token,
            store[key_of(user_id, metadata)].expires_at,
        ) == Result::<SessionView, ValidateSessionException>::Err(
            ValidateSessionException::SessionExpired,
        ),
        forall|now: u64|
            now < store[key_of(user_id, metadata)].expires_at ==> validate_verdict(
                store,
                user_id,
                metadata,
                refresh_token,
                now,
            ) == Result::<SessionView, ValidateSessionException>::Ok(
                store[key_of(user_id, metadata)],
            ),
{
}

} // verus!

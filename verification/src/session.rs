//! The session record and the two configuration values of the service.
//!
//! A session binds a user to a client context (the `metadata` string) and a
//! rotating refresh token, with an absolute expiry time.  Timestamps are
//! microseconds since an arbitrary epoch; a session is expired exactly when
//! the current time is at or past `expires_at` (inclusive boundary).

use crate::SerialId;
use vstd::prelude::*;

verus! {

/// Time-to-live of a session, in microseconds: added to "now" to compute a
/// session's expiry at creation and refresh time.
#[derive(Debug, Clone, Copy, PartialEq, Eq, Structural)]
pub struct SessionTTL(pub u64);

/// Upper bound on the number of concurrent, not-yet-expired sessions a
/// single user may hold.
#[derive(Debug, Clone, Copy, PartialEq, Eq, Structural)]
pub struct SessionsMaxNumber(pub usize);

/// Mathematical natural key of a session: at most one stored session may
/// exist per `(user_id, metadata)` pair.
#[verifier::ext_equal]
pub struct SessionKey {
    pub user_id: SerialId,
    pub metadata: Seq<char>,
}

/// Mathematical model of one stored session.
#[verifier::ext_equal]
pub struct SessionView {
    pub user_id: SerialId,
    pub metadata: Seq<char>,
    pub refresh_token: Seq<char>,
    pub expires_at: u64,
}

impl SessionView {
    /// The natural key of this session.
    pub open spec fn key(self) -> SessionKey {
        SessionKey { user_id: self.user_id, metadata: self.metadata }
    }

    /// A session is expired exactly when the current time is at or past its
    /// expiry: a session whose `expires_at` equals "now" is already expired.
    pub open spec fn is_expired_at(self, now: u64) -> bool {
        self.expires_at <= now
    }
}

/// The natural key made from a user identifier and a client-context string.
pub open spec fn key_of(user_id: SerialId, metadata: Seq<char>) -> SessionKey {
    SessionKey { user_id, metadata }
}

/// A stored login session: the server-side record binding a user, a client
/// context and a rotating refresh token, with an absolute expiry.
#[derive(Debug)]
pub struct Session {
    /// Identifier of the owning user.
    pub user_id: SerialId,
    /// Opaque string identifying the client or device; together with
    /// `user_id` it forms the natural key of the session.
    pub metadata: String,
    /// Opaque credential presented by the caller on every subsequent
    /// operation; compared byte-exact, with no normalization.
    pub refresh_token: String,
    /// Absolute expiry time, in microseconds.
    pub expires_at: u64,
}

impl View for Session {
    type V = SessionView;

    open spec fn view(&self) -> SessionView {
        SessionView {
            user_id: self.user_id,
            metadata: self.metadata@,
            refresh_token: self.refresh_token@,
            expires_at: self.expires_at,
        }
    }
}

impl DeepView for Session {
    type V = SessionView;

    open spec fn deep_view(&self) -> SessionView {
        self@
    }
}

impl Clone for Session {
    fn clone(&self) -> (r: Session)
        ensures
            r@ == self@,
    {
        Session {
            user_id: self.user_id,
            metadata: self.metadata.clone(),
            refresh_token: self.refresh_token.clone(),
            expires_at: self.expires_at,
        }
    }
}

impl Session {
    /// A candidate session expiring one TTL from now.
    pub fn new(
        user_id: SerialId,
        metadata: String,
        refresh_token: String,
        session_ttl: SessionTTL,
        now: u64,
    ) -> (r: Session)
        requires
            now + session_ttl.0 <= u64::MAX,
        ensures
            r@ == (SessionView {
                user_id,
                metadata: metadata@,
                refresh_token: refresh_token@,
                expires_at: (now + session_ttl.0) as u64,
            }),
    {
        Session { user_id, metadata, refresh_token, expires_at: now + session_ttl.0 }
    }

    /// Whether this session is expired at time `now` (inclusive boundary).
    pub fn is_expired(&self, now: u64) -> (r: bool)
        ensures
            r == self@.is_expired_at(now),
    {
        self.expires_at <= now
    }
}

} // verus!

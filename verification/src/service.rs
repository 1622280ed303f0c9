//! The session service: validation, creation, rotation and deletion of
//! sessions, with invariant enforcement and translation of repository
//! outcomes into the domain exceptions of each operation.
//!
//! Every operation takes the current time as an explicit argument: reading
//! the clock is an effect of the calling edge, and keeping it out of the
//! service makes every expiry decision deterministic and provable.  Each
//! operation holds the repository exclusively (`&mut self`) for its whole
//! read-then-write sequence, which is what upholds the uniqueness and
//! cardinality invariants under concurrent callers: an implementation maps
//! one service call to one storage transaction.

use crate::SerialId;
use crate::outcome::{Outcome, UnexpectedError};
use crate::repository::{SessionRepository, SessionStore, live_count, purged_user};
use crate::session::{Session, SessionTTL, SessionView, SessionsMaxNumber, key_of};
use vstd::prelude::*;

verus! {

/// Declared failures of `validate`: the session is missing, the presented
/// token does not match, or the session is expired.  Any of the three
/// triggers defensive revocation of all of the user's sessions.
#[derive(Debug, Clone, Copy, PartialEq, Eq, Structural)]
pub enum ValidateSessionException {
    NoSessionFound,
    InvalidRefreshToken,
    SessionExpired,
}

/// Declared failures of `delete`: exactly the validation failures,
/// re-exposed transparently.
#[derive(Debug, Clone, Copy, PartialEq, Eq, Structural)]
pub enum DeleteSessionException {
    FailedToValidateSession(ValidateSessionException),
}

/// Declared failures of `update`: exactly the validation failures,
/// re-exposed transparently.
#[derive(Debug, Clone, Copy, PartialEq, Eq, Structural)]
pub enum UpdateSessionException {
    FailedToValidateSession(ValidateSessionException),
}

/// Declared failure of `save`: the user already holds as many live
/// sessions as the configured maximum.
#[derive(Debug, Clone, Copy, PartialEq, Eq, Structural)]
pub enum SaveSessionException {
    SessionsLimitReached { limit: usize },
}

/// What `validate` must decide for a given store content and time: the
/// stored session when the key is present, the token matches byte-exact
/// and the session is not yet expired; otherwise the one applicable
/// exception, checked in that order.
pub open spec fn validate_verdict(
    store: SessionStore,
    user_id: SerialId,
    metadata: Seq<char>,
    refresh_token: Seq<char>,
    now: u64,
) -> Result<SessionView, ValidateSessionException> {
    let k = key_of(user_id, metadata);
    if !store.contains_key(k) {
        Result::Err(ValidateSessionException::NoSessionFound)
    } else if store[k].refresh_token != refresh_token {
        Result::Err(ValidateSessionException::InvalidRefreshToken)
    } else if store[k].is_expired_at(now) {
        Result::Err(ValidateSessionException::SessionExpired)
    } else {
        Result::Ok(store[k])
    }
}

/// Orchestrates the session lifecycle against an injected repository.
/// The configuration values are fixed at construction.
pub struct SessionService<R: SessionRepository> {
    pub repo: R,
    pub session_ttl: SessionTTL,
    pub sessions_max_number: SessionsMaxNumber,
}

impl<R: SessionRepository> SessionService<R> {
    /// The abstract content of the underlying store.
    pub open spec fn store(&self) -> SessionStore {
        self.repo.store()
    }

    /// The service is usable whenever its repository is well-formed.
    pub open spec fn wf(&self) -> bool {
        self.repo.inv()
    }

    /// The configuration of the service is unchanged.
    pub open spec fn same_config(&self, other: &Self) -> bool {
        self.session_ttl == other.session_ttl && self.sessions_max_number
            == other.sessions_max_number
    }

    /// A service over the given repository and configuration.
    pub fn new(repo: R, session_ttl: SessionTTL, sessions_max_number: SessionsMaxNumber) -> (r:
        SessionService<R>)
        ensures
            r.repo == repo,
            r.session_ttl == session_ttl,
            r.sessions_max_number == sessions_max_number,
    {
        SessionService { repo, session_ttl, sessions_max_number }
    }

    /// Looks up the session for `(user_id, metadata)` and checks the
    /// presented refresh token and the expiry against `now`.
    ///
    /// Any failure at this boundary is treated as a potential
    /// credential-compromise signal, so the response is maximally
    /// conservative: every session of the user is revoked, not just the
    /// offending one.
    pub fn validate(
        &mut self,
        user_id: SerialId,
        metadata: &String,
        refresh_token: &String,
        now: u64,
    ) -> (r: Outcome<Session, ValidateSessionException>)
        requires
            old(self).wf(),
        ensures
            final(self).wf(),
            final(self).same_config(old(self)),
            match r {
                Outcome::Success(s) => validate_verdict(
                    old(self).store(),
                    user_id,
                    metadata@,
                    refresh_token@,
                    now,
                ) == Result::<SessionView, ValidateSessionException>::Ok(s@) && final(self).store()
                    == old(self).store(),
                Outcome::Exception(e) => validate_verdict(
                    old(self).store(),
                    user_id,
                    metadata@,
                    refresh_token@,
                    now,
                ) == Result::<SessionView, ValidateSessionException>::Err(e) && purged_user(
                    old(self).store(),
                    final(self).store(),
                    user_id,
                ),
                Outcome::Unexpected(_) => final(self).store() == old(self).store(),
            },
    {
        let session = match self.repo.find(user_id, metadata) {
            Outcome::Success(session) => session,
            Outcome::Exception(_) => {
                match self.repo.delete_all(user_id).collapse() {
                    Ok(_) => {
                        return Outcome::Exception(ValidateSessionException::NoSessionFound);
                    },
                    Err(e) => {
                        return Outcome::Unexpected(e);
                    },
                }
            },
            Outcome::Unexpected(e) => {
                return Outcome::Unexpected(e);
            },
        };

        if session.refresh_token != *refresh_token {
            return match self.repo.delete_all(user_id).collapse() {
                Ok(_) => Outcome::Exception(ValidateSessionException::InvalidRefreshToken),
                Err(e) => Outcome::Unexpected(e),
            };
        }

        if session.is_expired(now) {
            return match self.repo.delete_all(user_id).collapse() {
                Ok(_) => Outcome::Exception(ValidateSessionException::SessionExpired),
                Err(e) => Outcome::Unexpected(e),
            };
        }

        Outcome::Success(session)
    }

    /// Whether a session sharing `session`'s natural key is stored.
    fn is_session_exist(&mut self, session: &Session) -> (r: Result<bool, UnexpectedError>)
        requires
            old(self).wf(),
        ensures
            final(self).wf(),
            final(self).same_config(old(self)),
            final(self).store() == old(self).store(),
            r matches Ok(b) ==> b == old(self).store().contains_key(session@.key()),
    {
        match self.repo.find(session.user_id, &session.metadata) {
            Outcome::Success(_) => Ok(true),
            Outcome::Exception(_) => Ok(false),
            Outcome::Unexpected(e) => Err(e),
        }
    }

    /// Fails with `SessionsLimitReached` exactly when the user already
    /// holds `sessions_max_number` or more live sessions at time `now`.
    fn check_user_limit(&mut self, user_id: SerialId, sessions_max_number: usize, now: u64) -> (r:
        Outcome<(), SaveSessionException>)
        requires
            old(self).wf(),
        ensures
            final(self).wf(),
            final(self).same_config(old(self)),
            final(self).store() == old(self).store(),
            match r {
                Outcome::Success(_) => live_count(old(self).store(), user_id, now)
                    < sessions_max_number,
                Outcome::Exception(e) => e == (SaveSessionException::SessionsLimitReached {
                    limit: sessions_max_number,
                }) && live_count(old(self).store(), user_id, now) >= sessions_max_number,
                Outcome::Unexpected(_) => true,
            },
    {
        let sessions_number = match self.repo.count_not_expired_by_user_id(user_id, now).collapse() {
            Ok(n) => n,
            Err(e) => {
                return Outcome::Unexpected(e);
            },
        };

        if sessions_number >= sessions_max_number {
            Outcome::Exception(SaveSessionException::SessionsLimitReached {
                limit: sessions_max_number,
            })
        } else {
            Outcome::Success(())
        }
    }

    /// Stores a session for `(user_id, metadata)` expiring one TTL from
    /// `now`.  An existing session for the pair is refreshed in place with
    /// no limit check; a new pair is inserted only while the user's count
    /// of live sessions is below the configured maximum.
    ///
    /// A `now` so late that the expiry would overflow the timestamp range
    /// is a failed construction of the candidate session, surfaced as an
    /// `Unexpected` failure, never a panic or a silently wrong expiry.
    pub fn save(&mut self, user_id: SerialId, metadata: String, refresh_token: String, now: u64) -> (r:
        Outcome<Session, SaveSessionException>)
        requires
            old(self).wf(),
        ensures
            final(self).wf(),
            final(self).same_config(old(self)),
            now + old(self).session_ttl.0 > u64::MAX ==> r matches Outcome::Unexpected(_),
            match r {
                Outcome::Success(s) => now + old(self).session_ttl.0 <= u64::MAX && s@
                    == (SessionView {
                    user_id,
                    metadata: metadata@,
                    refresh_token: refresh_token@,
                    expires_at: (now + old(self).session_ttl.0) as u64,
                }) && final(self).store() == old(self).store().insert(
                    key_of(user_id, metadata@),
                    s@,
                ) && (old(self).store().contains_key(key_of(user_id, metadata@)) || live_count(
                    old(self).store(),
                    user_id,
                    now,
                ) < old(self).sessions_max_number.0),
                Outcome::Exception(e) => now + old(self).session_ttl.0 <= u64::MAX && e
                    == (SaveSessionException::SessionsLimitReached {
                    limit: old(self).sessions_max_number.0,
                }) && !old(self).store().contains_key(key_of(user_id, metadata@)) && live_count(
                    old(self).store(),
                    user_id,
                    now,
                ) >= old(self).sessions_max_number.0 && final(self).store() == old(self).store(),
                Outcome::Unexpected(_) => final(self).store() == old(self).store(),
            },
    {
        let sessions_max_number = self.sessions_max_number.0;
        let session_ttl = self.session_ttl;

        if now > u64::MAX - session_ttl.0 {
            return Outcome::Unexpected(
                UnexpectedError::new("computing the session expiry overflowed the timestamp range"),
            );
        }

        let session = Session::new(user_id, metadata, refresh_token, session_ttl, now);

        let exists_already = match self.is_session_exist(&session) {
            Ok(b) => b,
            Err(e) => {
                return Outcome::Unexpected(e);
            },
        };

        let session = if exists_already {
            match self.repo.update(session).collapse_with_context(
                "the session existence was checked before updating it, but an error occurs",
            ) {
                Ok(s) => s,
                Err(e) => {
                    return Outcome::Unexpected(e);
                },
            }
        } else {
            match self.check_user_limit(user_id, sessions_max_number, now) {
                Outcome::Success(_) => (),
                Outcome::Exception(e) => {
                    return Outcome::Exception(e);
                },
                Outcome::Unexpected(e) => {
                    return Outcome::Unexpected(e);
                },
            }

            match self.repo.insert(session).collapse_with_context(
                "the session not existence was checked before inserting it, but an error occurs",
            ) {
                Ok(s) => s,
                Err(e) => {
                    return Outcome::Unexpected(e);
                },
            }
        };

        Outcome::Success(session)
    }

    /// Rotates the refresh token of a validated session: the presented
    /// token is checked with full revocation-on-failure semantics, then
    /// replaced by `new_refresh_token`, every other field unchanged.
    pub fn update(
        &mut self,
        user_id: SerialId,
        metadata: &String,
        refresh_token_to_validate: &String,
        new_refresh_token: String,
        now: u64,
    ) -> (r: Outcome<Session, UpdateSessionException>)
        requires
            old(self).wf(),
        ensures
            final(self).wf(),
            final(self).same_config(old(self)),
            match r {
                Outcome::Success(s) => {
                    let verdict = validate_verdict(
                        old(self).store(),
                        user_id,
                        metadata@,
                        refresh_token_to_validate@,
                        now,
                    );
                    &&& verdict matches Result::Ok(v) && s@ == (SessionView {
                        refresh_token: new_refresh_token@,
                        ..v
                    })
                    &&& final(self).store() == old(self).store().insert(
                        key_of(user_id, metadata@),
                        s@,
                    )
                },
                Outcome::Exception(UpdateSessionException::FailedToValidateSession(e)) => {
                    validate_verdict(
                        old(self).store(),
                        user_id,
                        metadata@,
                        refresh_token_to_validate@,
                        now,
                    ) == Result::<SessionView, ValidateSessionException>::Err(e) && purged_user(
                        old(self).store(),
                        final(self).store(),
                        user_id,
                    )
                },
                Outcome::Unexpected(_) => final(self).store() == old(self).store(),
            },
    {
        let old_session = match self.validate(user_id, metadata, refresh_token_to_validate, now) {
            Outcome::Success(s) => s,
            Outcome::Exception(e) => {
                return Outcome::Exception(UpdateSessionException::FailedToValidateSession(e));
            },
            Outcome::Unexpected(e) => {
                return Outcome::Unexpected(e);
            },
        };

        proof {
            self.repo.lemma_inv_store_wf();
        }
        let new_session = Session { refresh_token: new_refresh_token, ..old_session };

        match self.repo.update(new_session).collapse_with_context(
            "the session existence was checked before updating it, but an error occurs",
        ) {
            Ok(s) => Outcome::Success(s),
            Err(e) => Outcome::Unexpected(e),
        }
    }

    /// Deletes a validated session: the presented token is checked with
    /// full revocation-on-failure semantics, then that single session is
    /// removed and returned.  Deleting a session that does not exist
    /// reports the declared not-found condition, never an unexpected
    /// failure.
    pub fn delete(
        &mut self,
        user_id: SerialId,
        metadata: &String,
        refresh_token_to_validate: &String,
        now: u64,
    ) -> (r: Outcome<Session, DeleteSessionException>)
        requires
            old(self).wf(),
        ensures
            final(self).wf(),
            final(self).same_config(old(self)),
            match r {
                Outcome::Success(s) => {
                    let verdict = validate_verdict(
                        old(self).store(),
                        user_id,
                        metadata@,
                        refresh_token_to_validate@,
                        now,
                    );
                    &&& verdict == Result::<SessionView, ValidateSessionException>::Ok(s@)
                    &&& final(self).store() == old(self).store().remove(key_of(user_id, metadata@))
                },
                Outcome::Exception(DeleteSessionException::FailedToValidateSession(e)) => {
                    validate_verdict(
                        old(self).store(),
                        user_id,
                        metadata@,
                        refresh_token_to_validate@,
                        now,
                    ) == Result::<SessionView, ValidateSessionException>::Err(e) && purged_user(
                        old(self).store(),
                        final(self).store(),
                        user_id,
                    )
                },
                Outcome::Unexpected(_) => final(self).store() == old(self).store(),
            },
    {
        let _validated = match self.validate(user_id, metadata, refresh_token_to_validate, now) {
            Outcome::Success(s) => s,
            Outcome::Exception(e) => {
                return Outcome::Exception(DeleteSessionException::FailedToValidateSession(e));
            },
            Outcome::Unexpected(e) => {
                return Outcome::Unexpected(e);
            },
        };

        match self.repo.delete(user_id, metadata).collapse_with_context(
            "the session existence was checked before deleting it, but an error occurs",
        ) {
            Ok(s) => Outcome::Success(s),
            Err(e) => Outcome::Unexpected(e),
        }
    }
}

} // verus!

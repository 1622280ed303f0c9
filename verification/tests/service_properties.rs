use session_manager::in_memory::InMemorySessionRepository;
use session_manager::outcome::Outcome;
use session_manager::repository::{EntityNotFoundError, SessionRepository};
use session_manager::service::{
    DeleteSessionException, SaveSessionException, SessionService, ValidateSessionException,
};
use session_manager::session::{SessionTTL, SessionsMaxNumber};

const TTL: u64 = 1_000_000;

fn service(max: usize) -> SessionService<InMemorySessionRepository> {
    SessionService::new(
        InMemorySessionRepository::new(),
        SessionTTL(TTL),
        SessionsMaxNumber(max),
    )
}

#[test]
fn saving_the_same_pair_twice_keeps_one_session() {
    let mut svc = service(5);
    let now: u64 = 10;

    assert!(svc.save(7, "deviceA".to_string(), "t1".to_string(), now).is_success());
    assert!(svc.save(7, "deviceA".to_string(), "t2".to_string(), now).is_success());

    // Exactly one live session is stored for the pair, holding the newest
    // token.
    let count = svc.repo.count_not_expired_by_user_id(7, now);
    assert!(matches!(count, Outcome::Success(1)));
    match svc.validate(7, &"deviceA".to_string(), &"t2".to_string(), now) {
        Outcome::Success(session) => assert_eq!(session.refresh_token, "t2"),
        _ => panic!("the refreshed session must validate with its new token"),
    }
}

#[test]
fn limit_counts_distinct_pairs_and_spares_refreshes() {
    let mut svc = service(3);
    let now: u64 = 10;

    assert!(svc.save(1, "a".to_string(), "t1".to_string(), now).is_success());
    assert!(svc.save(1, "b".to_string(), "t2".to_string(), now).is_success());
    assert!(svc.save(1, "c".to_string(), "t3".to_string(), now).is_success());

    let fourth = svc.save(1, "d".to_string(), "t4".to_string(), now);
    assert!(matches!(
        fourth,
        Outcome::Exception(SaveSessionException::SessionsLimitReached { limit: 3 })
    ));

    // A save that refreshes an existing pair is exempt from the check.
    let refresh = svc.save(1, "b".to_string(), "t5".to_string(), now);
    assert!(refresh.is_success());

    // Another user is not affected by the first user's count.
    assert!(svc.save(2, "a".to_string(), "t6".to_string(), now).is_success());
}

#[test]
fn failed_validate_leaves_zero_sessions_for_the_user() {
    let mut svc = service(5);
    let now: u64 = 10;

    assert!(svc.save(1, "a".to_string(), "t1".to_string(), now).is_success());
    assert!(svc.save(1, "b".to_string(), "t2".to_string(), now).is_success());
    assert!(svc.save(2, "a".to_string(), "t3".to_string(), now).is_success());

    let bad = svc.validate(1, &"a".to_string(), &"wrong".to_string(), now);
    assert!(matches!(
        bad,
        Outcome::Exception(ValidateSessionException::InvalidRefreshToken)
    ));

    let count = svc.repo.count_not_expired_by_user_id(1, now);
    assert!(matches!(count, Outcome::Success(0)));
    let find = svc.repo.find(1, &"b".to_string());
    assert!(matches!(find, Outcome::Exception(EntityNotFoundError)));

    // The other user's session survives the revocation.
    let other = svc.repo.count_not_expired_by_user_id(2, now);
    assert!(matches!(other, Outcome::Success(1)));
}

#[test]
fn missing_session_revokes_user_on_validate() {
    let mut svc = service(5);
    let now: u64 = 10;

    assert!(svc.save(1, "a".to_string(), "t1".to_string(), now).is_success());

    let missing = svc.validate(1, &"unknown-device".to_string(), &"t1".to_string(), now);
    assert!(matches!(
        missing,
        Outcome::Exception(ValidateSessionException::NoSessionFound)
    ));
    let count = svc.repo.count_not_expired_by_user_id(1, now);
    assert!(matches!(count, Outcome::Success(0)));
}

#[test]
fn deleting_a_missing_session_is_a_declared_condition() {
    let mut svc = service(5);
    let now: u64 = 10;

    let gone = svc.delete(1, &"nowhere".to_string(), &"t1".to_string(), now);
    assert!(matches!(
        gone,
        Outcome::Exception(DeleteSessionException::FailedToValidateSession(
            ValidateSessionException::NoSessionFound
        ))
    ));
}

#[test]
fn delete_with_a_wrong_token_revokes_the_user() {
    let mut svc = service(5);
    let now: u64 = 10;

    assert!(svc.save(1, "a".to_string(), "t1".to_string(), now).is_success());
    assert!(svc.save(1, "b".to_string(), "t2".to_string(), now).is_success());

    let refused = svc.delete(1, &"a".to_string(), &"wrong".to_string(), now);
    assert!(matches!(
        refused,
        Outcome::Exception(DeleteSessionException::FailedToValidateSession(
            ValidateSessionException::InvalidRefreshToken
        ))
    ));
    let count = svc.repo.count_not_expired_by_user_id(1, now);
    assert!(matches!(count, Outcome::Success(0)));
}

#[test]
fn delete_removes_only_the_validated_session() {
    let mut svc = service(5);
    let now: u64 = 10;

    assert!(svc.save(1, "a".to_string(), "t1".to_string(), now).is_success());
    assert!(svc.save(1, "b".to_string(), "t2".to_string(), now).is_success());

    let deleted = svc.delete(1, &"a".to_string(), &"t1".to_string(), now);
    match deleted {
        Outcome::Success(session) => {
            assert_eq!(session.metadata, "a");
            assert_eq!(session.refresh_token, "t1");
        }
        _ => panic!("deleting a valid session must succeed and return it"),
    }

    // The sibling session is untouched by a successful delete.
    let sibling = svc.validate(1, &"b".to_string(), &"t2".to_string(), now);
    assert!(sibling.is_success());
}

#[test]
fn session_expiring_exactly_now_is_expired() {
    let mut svc = service(5);

    // Saved at time 0, the session expires exactly at TTL.
    assert!(svc.save(1, "a".to_string(), "t1".to_string(), 0).is_success());
    let at_boundary = svc.validate(1, &"a".to_string(), &"t1".to_string(), TTL);
    assert!(matches!(
        at_boundary,
        Outcome::Exception(ValidateSessionException::SessionExpired)
    ));
}

#[test]
fn session_is_valid_one_microsecond_before_expiry() {
    let mut svc = service(5);

    assert!(svc.save(1, "a".to_string(), "t1".to_string(), 0).is_success());
    let just_before = svc.validate(1, &"a".to_string(), &"t1".to_string(), TTL - 1);
    assert!(just_before.is_success());
}

#[test]
fn overflowing_expiry_surfaces_as_unexpected() {
    let mut svc = service(5);
    // One TTL past this time no longer fits in the timestamp range, so the
    // candidate session cannot be constructed.
    let too_late: u64 = u64::MAX - TTL + 1;
    let broken = svc.save(1, "a".to_string(), "t1".to_string(), too_late);
    assert!(matches!(broken, Outcome::Unexpected(_)));

    // The store is untouched and keeps working.
    assert!(svc.save(1, "a".to_string(), "t1".to_string(), 10).is_success());
}

#[test]
fn storage_failure_surfaces_as_unexpected() {
    let mut svc = service(5);
    let now: u64 = 10;

    assert!(svc.save(1, "a".to_string(), "t1".to_string(), now).is_success());

    svc.repo.fail_next_operations(1);
    let broken = svc.validate(1, &"a".to_string(), &"t1".to_string(), now);
    assert!(matches!(broken, Outcome::Unexpected(_)));

    // The failure is transient and non-destructive: the session is intact.
    let again = svc.validate(1, &"a".to_string(), &"t1".to_string(), now);
    assert!(again.is_success());
}

#[test]
fn storage_failure_during_save_surfaces_as_unexpected() {
    let mut svc = service(5);
    svc.repo.fail_next_operations(1);
    let broken = svc.save(1, "a".to_string(), "t1".to_string(), 10);
    assert!(matches!(broken, Outcome::Unexpected(_)));
}

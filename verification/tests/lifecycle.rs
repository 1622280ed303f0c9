use session_manager::in_memory::InMemorySessionRepository;
use session_manager::outcome::Outcome;
use session_manager::service::{
    SaveSessionException, SessionService, UpdateSessionException, ValidateSessionException,
};
use session_manager::session::{SessionTTL, SessionsMaxNumber};

const TTL: u64 = 1_000_000;

fn service(max: usize) -> SessionService<InMemorySessionRepository> {
    SessionService::new(
        InMemorySessionRepository::new(),
        SessionTTL(TTL),
        SessionsMaxNumber(max),
    )
}

#[test]
fn limit_of_one_rejects_second_device() {
    let mut svc = service(1);
    let now: u64 = 10;

    let first = svc.save(1, "deviceA".to_string(), "t1".to_string(), now);
    assert!(first.is_success());

    let second = svc.save(1, "deviceB".to_string(), "t2".to_string(), now);
    assert!(matches!(
        second,
        Outcome::Exception(SaveSessionException::SessionsLimitReached { limit: 1 })
    ));
}

#[test]
fn wrong_token_revokes_and_later_validate_finds_nothing() {
    let mut svc = service(5);
    let now: u64 = 10;

    let saved = svc.save(1, "deviceA".to_string(), "t1".to_string(), now);
    assert!(saved.is_success());

    let bad = svc.validate(1, &"deviceA".to_string(), &"wrong".to_string(), now);
    assert!(matches!(
        bad,
        Outcome::Exception(ValidateSessionException::InvalidRefreshToken)
    ));

    let gone = svc.validate(1, &"deviceA".to_string(), &"t1".to_string(), now);
    assert!(matches!(
        gone,
        Outcome::Exception(ValidateSessionException::NoSessionFound)
    ));
}

#[test]
fn expired_session_triggers_full_revocation() {
    let mut svc = service(5);

    let saved = svc.save(1, "deviceA".to_string(), "t1".to_string(), 0);
    assert!(saved.is_success());
    let other = svc.save(1, "deviceB".to_string(), "t2".to_string(), 0);
    assert!(other.is_success());

    // Far past the expiry of both sessions.
    let late: u64 = TTL + 1;
    let expired = svc.validate(1, &"deviceA".to_string(), &"t1".to_string(), late);
    assert!(matches!(
        expired,
        Outcome::Exception(ValidateSessionException::SessionExpired)
    ));

    // The other, equally stored session of the user is gone as well.
    let gone = svc.validate(1, &"deviceB".to_string(), &"t2".to_string(), late);
    assert!(matches!(
        gone,
        Outcome::Exception(ValidateSessionException::NoSessionFound)
    ));
}

#[test]
fn update_rotates_token_and_retires_the_old_one() {
    let mut svc = service(5);
    let now: u64 = 10;

    let saved = svc.save(1, "deviceA".to_string(), "t1".to_string(), now);
    assert!(saved.is_success());

    let rotated = svc.update(
        1,
        &"deviceA".to_string(),
        &"t1".to_string(),
        "t2".to_string(),
        now,
    );
    match rotated {
        Outcome::Success(session) => {
            assert_eq!(session.refresh_token, "t2");
            assert_eq!(session.user_id, 1);
            assert_eq!(session.metadata, "deviceA");
        }
        _ => panic!("rotation of a valid session must succeed"),
    }

    let replay = svc.update(
        1,
        &"deviceA".to_string(),
        &"t1".to_string(),
        "t3".to_string(),
        now,
    );
    assert!(matches!(
        replay,
        Outcome::Exception(UpdateSessionException::FailedToValidateSession(
            ValidateSessionException::InvalidRefreshToken
        ))
    ));
}

#[test]
fn new_token_validates_after_rotation() {
    let mut svc = service(5);
    let now: u64 = 10;

    assert!(svc.save(1, "deviceA".to_string(), "t1".to_string(), now).is_success());
    assert!(svc
        .update(1, &"deviceA".to_string(), &"t1".to_string(), "t2".to_string(), now)
        .is_success());

    let fresh = svc.validate(1, &"deviceA".to_string(), &"t2".to_string(), now);
    match fresh {
        Outcome::Success(session) => assert_eq!(session.refresh_token, "t2"),
        _ => panic!("the rotated token must validate"),
    }
}

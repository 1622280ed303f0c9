use session_manager::person::Person;
use session_manager::session::{Session, SessionTTL};
use session_manager::subdivision::{Subdivision, SubdivisionId, SubdivisionMember, SubdivisionTag};
use session_manager::tag::Tag;
use session_manager::university::University;

fn university(id: i32, name: &str) -> University {
    University { id, name: name.to_string() }
}

fn subdivision(university_id: i32, name: &str) -> Subdivision {
    Subdivision {
        id: SubdivisionId { university: university(university_id, "u"), name: name.to_string() },
    }
}

#[test]
fn person_equality_is_by_id() {
    assert_eq!(Person { id: 1 }, Person { id: 1 });
    assert_ne!(Person { id: 1 }, Person { id: 2 });
}

#[test]
fn university_equality_ignores_the_name() {
    assert_eq!(university(1, "alpha"), university(1, "beta"));
    assert_ne!(university(1, "alpha"), university(2, "alpha"));
}

#[test]
fn subdivision_equality_is_by_identifier() {
    assert_eq!(subdivision(1, "math"), subdivision(1, "math"));
    assert_ne!(subdivision(1, "math"), subdivision(1, "physics"));
    assert_ne!(subdivision(1, "math"), subdivision(2, "math"));
}

#[test]
fn subdivision_tag_compares_both_parts() {
    let a = SubdivisionTag(subdivision(1, "math"), Tag { name: "stem".to_string() });
    let b = SubdivisionTag(subdivision(1, "math"), Tag { name: "stem".to_string() });
    let c = SubdivisionTag(subdivision(1, "math"), Tag { name: "arts".to_string() });
    assert_eq!(a, b);
    assert_ne!(a, c);
}

#[test]
fn subdivision_member_equality_ignores_the_role() {
    let a = SubdivisionMember {
        id: (subdivision(1, "math"), Person { id: 3 }),
        role: "lecturer".to_string(),
    };
    let b = SubdivisionMember {
        id: (subdivision(1, "math"), Person { id: 3 }),
        role: "dean".to_string(),
    };
    let c = SubdivisionMember {
        id: (subdivision(1, "math"), Person { id: 4 }),
        role: "lecturer".to_string(),
    };
    assert_eq!(a, b);
    assert_ne!(a, c);
}

#[test]
fn new_session_expires_one_ttl_from_now() {
    let session = Session::new(9, "device".to_string(), "token".to_string(), SessionTTL(250), 1_000);
    assert_eq!(session.user_id, 9);
    assert_eq!(session.metadata, "device");
    assert_eq!(session.refresh_token, "token");
    assert_eq!(session.expires_at, 1_250);
}

#[test]
fn is_expired_has_an_inclusive_boundary() {
    let session = Session::new(9, "device".to_string(), "token".to_string(), SessionTTL(250), 1_000);
    assert!(!session.is_expired(1_249));
    assert!(session.is_expired(1_250));
    assert!(session.is_expired(1_251));
}

#[test]
fn cloned_session_keeps_every_field() {
    let session = Session::new(9, "device".to_string(), "token".to_string(), SessionTTL(250), 1_000);
    let copy = session.clone();
    assert_eq!(copy.user_id, session.user_id);
    assert_eq!(copy.metadata, session.metadata);
    assert_eq!(copy.refresh_token, session.refresh_token);
    assert_eq!(copy.expires_at, session.expires_at);
}

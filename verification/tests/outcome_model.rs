use session_manager::outcome::{Outcome, UnexpectedError};

#[test]
fn is_success_distinguishes_the_variants() {
    let ok: Outcome<i32, ()> = Outcome::Success(5);
    let ex: Outcome<i32, ()> = Outcome::Exception(());
    let un: Outcome<i32, ()> = Outcome::Unexpected(UnexpectedError::new("boom"));
    assert!(ok.is_success());
    assert!(!ex.is_success());
    assert!(!un.is_success());
}

#[test]
fn collapse_passes_success_through() {
    let ok: Outcome<i32, ()> = Outcome::Success(5);
    assert!(matches!(ok.collapse(), Ok(5)));
}

#[test]
fn collapse_turns_a_declared_exception_into_a_failure() {
    let ex: Outcome<i32, ()> = Outcome::Exception(());
    let err = ex.collapse().unwrap_err();
    assert_eq!(err.context.len(), 1);
}

#[test]
fn collapse_with_context_stacks_messages() {
    let un: Outcome<i32, ()> = Outcome::Unexpected(UnexpectedError::new("storage down"));
    let err = un.collapse_with_context("while checking a session").unwrap_err();
    assert_eq!(err.context, vec!["storage down", "while checking a session"]);
}

#[test]
fn collapse_with_context_labels_an_impossible_exception() {
    let ex: Outcome<i32, ()> = Outcome::Exception(());
    let err = ex
        .collapse_with_context("the session existence was checked before deleting it")
        .unwrap_err();
    assert_eq!(
        err.context,
        vec!["the session existence was checked before deleting it"]
    );
}

#[test]
fn with_context_appends_to_the_stack() {
    let err = UnexpectedError::new("inner").with_context("outer");
    assert_eq!(err.context, vec!["inner", "outer"]);
}

//! The three-way result type used by every session operation.
//!
//! `Outcome` separates three kinds of results: success, a declared
//! domain exception that a caller can act on, and an unexpected
//! infrastructure failure that can only be propagated upward.

use vstd::prelude::*;

verus! {

/// An infrastructure-level failure: storage unreachable, an invariant
/// violated unexpectedly, and the like.  It carries a stack of context
/// messages, innermost first; callers never recover from it, they only
/// attach context at invariant checkpoints and pass it upward.
#[derive(Debug)]
pub struct UnexpectedError {
    pub context: Vec<String>,
}

impl UnexpectedError {
    /// The sequence of context messages attached so far, innermost first.
    pub open spec fn messages(&self) -> Seq<Seq<char>> {
        self.context.deep_view()
    }

    /// A fresh failure with a single context message.
    pub fn new(message: &str) -> (r: UnexpectedError)
        ensures
            r.messages() == seq![message@],
    {
        let mut context: Vec<String> = Vec::new();
        context.push(message.to_owned());
        proof {
            assert(context.deep_view() =~= seq![message@]);
        }
        UnexpectedError { context }
    }

    /// The same failure with one more context message on top.
    pub fn with_context(self, message: &str) -> (r: UnexpectedError)
        ensures
            r.messages() == self.messages().push(message@),
    {
        let ghost earlier = self.messages();
        let mut context = self.context;
        context.push(message.to_owned());
        proof {
            assert(context.deep_view() =~= earlier.push(message@));
        }
        UnexpectedError { context }
    }
}

/// Three-variant result of a session operation:
/// the operation succeeded and produced a value, it failed with an
/// expected, declared domain exception, or it ran into an unexpected
/// infrastructure failure.
#[derive(Debug)]
pub enum Outcome<T, E> {
    Success(T),
    Exception(E),
    Unexpected(UnexpectedError),
}

impl<T, E> Outcome<T, E> {
    /// Whether this outcome is the `Success` variant.
    pub fn is_success(&self) -> (r: bool)
        ensures
            r == (self matches Outcome::Success(_)),
    {
        match self {
            Outcome::Success(_) => true,
            _ => false,
        }
    }

    /// Collapses the outcome into plain success-or-failure, for call sites
    /// where the exception case is structurally impossible but must still be
    /// defended for future-proofing: a declared exception is turned into an
    /// `UnexpectedError`.
    pub fn collapse(self) -> (r: Result<T, UnexpectedError>)
        ensures
            match self {
                Outcome::Success(t) => r == Result::<T, UnexpectedError>::Ok(t),
                Outcome::Exception(_) => r matches Result::Err(e) && e.messages() == seq![
                    "an exception occurred where none was thought possible"@,
                ],
                Outcome::Unexpected(u) => r == Result::<T, UnexpectedError>::Err(u),
            },
    {
        match self {
            Outcome::Success(t) => Ok(t),
            Outcome::Exception(_) => Err(
                UnexpectedError::new("an exception occurred where none was thought possible"),
            ),
            Outcome::Unexpected(u) => Err(u),
        }
    }

    /// Like [`Outcome::collapse`], but attaches a caller-supplied context
    /// message to whichever failure comes out.
    pub fn collapse_with_context(self, message: &str) -> (r: Result<T, UnexpectedError>)
        ensures
            match self {
                Outcome::Success(t) => r == Result::<T, UnexpectedError>::Ok(t),
                Outcome::Exception(_) => r matches Result::Err(e) && e.messages() == seq![
                    message@,
                ],
                Outcome::Unexpected(u) => r matches Result::Err(e) && e.messages()
                    == u.messages().push(message@),
            },
    {
        match self {
            Outcome::Success(t) => Ok(t),
            Outcome::Exception(_) => Err(UnexpectedError::new(message)),
            Outcome::Unexpected(u) => Err(u.with_context(message)),
        }
    }
}

} // verus!

//! The failure of an operation, as its caller gets to see it.

use vstd::prelude::*;

verus! {

/// An operation that failed, with what it has to say.
#[derive(Debug, Clone, PartialEq, Eq)]
pub struct Failure {
    pub message: String,
}

impl View for Failure {
    type V = Seq<char>;

    open spec fn view(&self) -> Seq<char> {
        self.message@
    }
}

impl Failure {
    /// The failure that says `message`.
    pub fn new(message: &str) -> (r: Self)
        ensures
            r@ == message@,
    {
        Failure { message: message.to_owned() }
    }

    /// What the failure says.
    pub fn message(&self) -> (r: &str)
        ensures
            r@ == self@,
    {
        self.message.as_str()
    }
}

/// What a result has to say against its operation: nothing where it succeeded.
pub open spec fn said<T>(r: Result<T, Failure>) -> Option<Seq<char>> {
    match r {
        Ok(_) => None,
        Err(e) => Some(e@),
    }
}

/// A failure is told by its message, and where there is none nothing is told.
pub proof fn law_failures_tell_their_message<T>(value: T, failure: Failure)
    ensures
        said(Ok::<T, Failure>(value)) is None,
        said(Err::<T, Failure>(failure)) == Some(failure.message@),
{
}

} // verus!

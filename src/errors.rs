//! Errors caused by the user's invocation of the program.

use vstd::prelude::*;

verus! {

/// An error in how the program was invoked, with the message to show to the user.
#[derive(Debug)]
pub struct UsageError {
    /// The error message to show to the user.
    pub message: String,
}

impl UsageError {
    /// A usage error that carries `message`.
    pub fn new(message: String) -> (r: UsageError)
        ensures
            r.message@ == message@,
    {
        UsageError { message }
    }

    /// The error message, as the user sees it.
    pub fn to_string(&self) -> (r: String)
        ensures
            r@ == self.message@,
    {
        self.message.clone()
    }
}

impl PartialEq for UsageError {
    fn eq(&self, other: &UsageError) -> (r: bool)
        ensures
            r == (self.message@ == other.message@),
    {
        self.message == other.message
    }
}

impl vstd::std_specs::cmp::PartialEqSpecImpl for UsageError {
    open spec fn obeys_eq_spec() -> bool {
        true
    }

    open spec fn eq_spec(&self, other: &UsageError) -> bool {
        self.message@ == other.message@
    }
}

} // verus!

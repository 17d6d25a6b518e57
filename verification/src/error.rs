//! An error that is only a message.

use vstd::prelude::*;
use vstd::string::*;

verus! {

/// An error that holds its message and nothing else.
#[derive(Debug)]
pub struct GenericError {
    message: String,
}

impl View for GenericError {
    type V = Seq<char>;

    closed spec fn view(&self) -> Seq<char> {
        self.message@
    }
}

impl From<String> for GenericError {
    fn from(message: String) -> (r: Self)
        ensures
            r@ == message@,
    {
        GenericError { message }
    }
}

impl vstd::std_specs::convert::FromSpecImpl<String> for GenericError {
    open spec fn obeys_from_spec() -> bool {
        true
    }

    closed spec fn from_spec(message: String) -> GenericError {
        GenericError { message }
    }
}

impl Clone for GenericError {
    fn clone(&self) -> (r: Self)
        ensures
            r@ == self@,
    {
        GenericError { message: self.message.clone() }
    }
}

impl GenericError {
    /// The message.
    pub fn to_string(&self) -> (r: String)
        ensures
            r@ == self@,
    {
        self.message.clone()
    }
}

} // verus!

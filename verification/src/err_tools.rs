//! The library's own error type: a message string with a known content.
use vstd::prelude::*;

verus! {

#[derive(Debug)]
pub struct ErrorX {
    details: String,
}

impl ErrorX {
    /// The message the error carries.
    pub closed spec fn spec_details(self) -> Seq<char> {
        self.details@
    }

    pub fn new(msg: &str) -> (r: ErrorX)
        ensures
            r.spec_details() == msg@,
    {
        ErrorX { details: msg.to_owned() }
    }

    pub fn new_box(msg: &str) -> (r: Box<ErrorX>)
        ensures
            r.spec_details() == msg@,
    {
        Box::new(ErrorX { details: msg.to_owned() })
    }

    /// Builds an error that owns an already composed message.
    pub fn from_string(msg: String) -> (r: ErrorX)
        ensures
            r.spec_details() == msg@,
    {
        ErrorX { details: msg }
    }

    /// The message, for display by the caller.
    pub fn message(&self) -> (r: &str)
        ensures
            r@ == self.spec_details(),
    {
        self.details.as_str()
    }
}

} // verus!

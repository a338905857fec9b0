//! The error that a request handler answers with: a message and the chain
//! of causes behind it, sent as a bad request.

use vstd::prelude::*;

verus! {

/// `http::StatusCode::BAD_REQUEST`, as its number: per the `http` crate's
/// source it is the status 400.
#[verifier::external_body]
fn bad_request_status() -> (res: u16)
    ensures
        res == 400,
{
    http::StatusCode::BAD_REQUEST.as_u16()
}

/// An error of a request: its message, and the messages of the error and of
/// each error that caused it, outermost first.
#[derive(Debug)]
pub struct Error {
    message: String,
    causes: Vec<String>,
}

/// The body of an error response.
#[derive(Debug)]
pub struct ErrorJson {
    pub message: String,
    pub causes: Vec<String>,
}

impl Error {
    /// The chain of causes starts with the error itself.
    #[verifier::type_invariant]
    spec fn well_formed(self) -> bool {
        self.causes@.len() >= 1 && self.causes@[0]@ == self.message@
    }

    pub closed spec fn spec_message(&self) -> Seq<char> {
        self.message@
    }

    pub closed spec fn spec_causes(&self) -> Seq<String> {
        self.causes@
    }

    /// An error with the given message and chain of causes, which starts
    /// with the error itself.
    pub fn new(message: String, causes: Vec<String>) -> (res: Error)
        requires
            causes@.len() >= 1,
            causes@[0]@ == message@,
        ensures
            res.spec_message() == message@,
            res.spec_causes() == causes@,
    {
        Error { message, causes }
    }

    /// The error's message.
    pub fn message(&self) -> (res: &str)
        ensures
            res@ == self.spec_message(),
    {
        self.message.as_str()
    }

    /// The messages of the chain of causes, outermost first.
    pub fn causes(&self) -> (res: &Vec<String>)
        ensures
            res@ == self.spec_causes(),
            res@.len() >= 1,
            res@[0]@ == self.spec_message(),
    {
        proof {
            use_type_invariant(self);
        }
        &self.causes
    }

    /// The response to a failed request: status 400 (bad request) with the
    /// message and the causes as its body.
    pub fn into_response(self) -> (res: (u16, ErrorJson))
        ensures
            res.0 == 400,
            res.1.message@ == self.spec_message(),
            res.1.causes@ == self.spec_causes(),
            res.1.causes@.len() >= 1,
            res.1.causes@[0]@ == res.1.message@,
    {
        proof {
            use_type_invariant(&self);
        }
        (bad_request_status(), ErrorJson { message: self.message, causes: self.causes })
    }
}

} // verus!

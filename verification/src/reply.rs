use vstd::prelude::*;

verus! {

/// A refusal that a guard of the API answers with, instead of passing the
/// request on.
#[derive(Debug, Clone, Copy, PartialEq, Eq, Structural)]
pub enum Reply {
    BadRequest,
    Unauthorized,
    PreconditionFailed,
    InternalServerError,
}

/// The HTTP status code of a refusal.
pub open spec fn reply_status(r: Reply) -> u16 {
    match r {
        Reply::BadRequest => 400,
        Reply::Unauthorized => 401,
        Reply::PreconditionFailed => 412,
        Reply::InternalServerError => 500,
    }
}

impl Reply {
    /// The HTTP status code of this refusal.
    pub fn status(&self) -> (r: u16)
        ensures
            r == reply_status(*self),
    {
        match self {
            Reply::BadRequest => 400,
            Reply::Unauthorized => 401,
            Reply::PreconditionFailed => 412,
            Reply::InternalServerError => 500,
        }
    }
}

} // verus!

//! What a handler answers: a status and a text.
use vstd::prelude::*;

verus! {

/// A handler's answer. `Success` carries the body as it is sent; the other
/// variants carry a message that is sent as the body's `error` field.
pub enum Outcome {
    Success(String),
    NotFound(String),
    Unauthorized(String),
    InternalError(String),
}

impl View for Outcome {
    /// The HTTP status and the text.
    type V = (u16, Seq<char>);

    open spec fn view(&self) -> (u16, Seq<char>) {
        match self {
            Outcome::Success(t) => (200, t@),
            Outcome::NotFound(t) => (404, t@),
            Outcome::Unauthorized(t) => (401, t@),
            Outcome::InternalError(t) => (500, t@),
        }
    }
}

impl Outcome {
    /// The HTTP status of this answer.
    pub fn status(&self) -> (r: u16)
        ensures
            r == self@.0,
    {
        match self {
            Outcome::Success(_) => 200,
            Outcome::NotFound(_) => 404,
            Outcome::Unauthorized(_) => 401,
            Outcome::InternalError(_) => 500,
        }
    }

    /// The body (for `Success`) or the error message.
    pub fn text(&self) -> (r: &String)
        ensures
            r@ == self@.1,
    {
        match self {
            Outcome::Success(t) => t,
            Outcome::NotFound(t) => t,
            Outcome::Unauthorized(t) => t,
            Outcome::InternalError(t) => t,
        }
    }
}

} // verus!

use vstd::prelude::*;

verus! {

/// Why a request was refused, with the text sent back to the client.
#[derive(Debug, Clone, Copy)]
pub enum ErrorType {
    BADREQUEST(&'static str),
    UNAUTHORIZED(&'static str),
    InternalServerError(&'static str),
}

impl ErrorType {
    /// The text carried by the variant.
    pub open spec fn text(self) -> Seq<char> {
        match self {
            ErrorType::BADREQUEST(t) => t@,
            ErrorType::UNAUTHORIZED(t) => t@,
            ErrorType::InternalServerError(t) => t@,
        }
    }

    /// The HTTP status that answers the variant.
    pub open spec fn status(self) -> u16 {
        match self {
            ErrorType::BADREQUEST(_) => 400,
            ErrorType::UNAUTHORIZED(_) => 401,
            ErrorType::InternalServerError(_) => 500,
        }
    }
}

/// An error returned by a route; it is answered with a plain-text reply.
#[derive(Debug, Clone, Copy)]
pub struct Error {
    cause: ErrorType,
}

impl Error {
    /// The cause this error was built from.
    pub closed spec fn spec_cause(self) -> ErrorType {
        self.cause
    }

    /// The error is answered with this status and this text.
    pub open spec fn spec_is(self, status: u16, text: Seq<char>) -> bool {
        self.spec_cause().status() == status && self.spec_cause().text() == text
    }

    pub fn new(cause: ErrorType) -> (e: Self)
        ensures
            e.spec_cause() == cause,
    {
        Error { cause }
    }

    pub fn cause(&self) -> (c: ErrorType)
        ensures
            c == self.spec_cause(),
    {
        self.cause
    }

    /// The text shown for the error: the text its cause carries.
    pub fn message(&self) -> (m: &'static str)
        ensures
            m@ == self.spec_cause().text(),
    {
        match self.cause {
            ErrorType::BADREQUEST(data) => data,
            ErrorType::UNAUTHORIZED(data) => data,
            ErrorType::InternalServerError(data) => data,
        }
    }

    /// The status of the reply: 400 for a bad request, 401 for an
    /// unauthorized one, 500 for an internal failure.
    pub fn status_code(&self) -> (s: u16)
        ensures
            s == self.spec_cause().status(),
    {
        match self.cause {
            ErrorType::BADREQUEST(_) => 400,
            ErrorType::UNAUTHORIZED(_) => 401,
            ErrorType::InternalServerError(_) => 500,
        }
    }
}

} // verus!

//! Plain-text replies and the two-way choice a route makes before it
//! touches a store.
use vstd::prelude::*;

verus! {

/// A plain-text reply: an HTTP status and the body text.
#[derive(Debug, Clone, PartialEq, Eq)]
pub struct Reply {
    pub status: u16,
    pub body: String,
}

impl Reply {
    /// The reply has this status and this body text.
    pub open spec fn is(self, status: u16, text: Seq<char>) -> bool {
        self.status == status && self.body@ == text
    }

    pub fn plain(status: u16, text: &str) -> (r: Reply)
        ensures
            r.is(status, text@),
    {
        Reply { status, body: text.to_owned() }
    }

    /// The reply to a request that carries no valid session.
    pub fn invalid_token() -> (r: Reply)
        ensures
            r.is(401, "invalid token"@),
    {
        Reply::plain(401, "invalid token")
    }

    /// The reply to a store failure: status 500 with the failure's text.
    pub fn store_failure(error: String) -> (r: Reply)
        ensures
            r.status == 500,
            r.body@ == error@,
    {
        Reply { status: 500, body: error }
    }
}

/// What a route does next: answer at once, or go on to the store with `T`.
#[derive(Debug)]
pub enum Step<T> {
    Answer(Reply),
    Proceed(T),
}

impl<T> Step<T> {
    /// The route answers at once with this status and text.
    pub open spec fn answers(self, status: u16, text: Seq<char>) -> bool {
        self matches Step::Answer(rep) && rep.is(status, text)
    }

    /// The route answers at once that the session is missing.
    pub open spec fn refuses_session(self) -> bool {
        self.answers(401, "invalid token"@)
    }
}

} // verus!

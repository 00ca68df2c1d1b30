//! Rows of the person table.
use vstd::prelude::*;
use crate::queries::messages::CreatePerson;

verus! {

/// A stored person. Only `username` is ever sent back to clients.
#[derive(Debug)]
pub struct Persons {
    pub id: uuid::Uuid,
    pub username: String,
    pub password: String,
}

/// The columns written when a person is created; the table assigns `id`.
#[derive(Debug, Clone)]
pub struct NewPerson {
    pub username: String,
    pub password: String,
}

impl NewPerson {
    /// The row that a `CreatePerson` request inserts: its username and
    /// password, as given; the request's `id` is not written.
    pub fn from_request(msg: CreatePerson) -> (row: NewPerson)
        ensures
            row.username@ == msg.username@,
            row.password@ == msg.password@,
    {
        NewPerson { username: msg.username, password: msg.password }
    }
}

} // verus!

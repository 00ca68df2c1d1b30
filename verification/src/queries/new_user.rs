//! The person routes: the request each one sends to the person table's
//! worker, and the JSON reply chosen for each answer.
use vstd::prelude::*;
use crate::queries::db_models::Persons;
use crate::queries::messages::{CreatePerson, FetchOnePersons, UpdatePerson};

verus! {

/// How a request to the person table's worker ended.
#[derive(Debug)]
pub enum DbReply<T> {
    /// The query ran and gave this value.
    Done(T),
    /// The query ran and failed (no such row, a duplicate, ...).
    QueryFailed,
    /// The worker could not be reached.
    Unreachable,
}

/// A JSON reply of the person routes.
#[derive(Debug, Clone, PartialEq, Eq)]
pub enum UsersReply {
    /// Status 200 with `[{"username": ..}, ..]`, one entry per person.
    Usernames(Vec<String>),
    /// Status 200 with `{"username": ..}`.
    Username(String),
    /// Status 200 with the number of rows changed.
    Count(usize),
    /// A JSON string with the given status.
    Message(u16, String),
}

impl UsersReply {
    pub open spec fn is_message(self, status: u16, text: Seq<char>) -> bool {
        self matches UsersReply::Message(s, t) && s == status && t@ == text
    }
}

fn message(status: u16, text: &str) -> (r: UsersReply)
    ensures
        r.is_message(status, text@),
{
    UsersReply::Message(status, text.to_owned())
}

/// The usernames of the persons, in order.
pub open spec fn usernames_of(list: Seq<Persons>) -> Seq<Seq<char>> {
    list.map_values(|p: Persons| p.username@)
}

/// The listing has one name per person, in order: the i-th name is the
/// i-th person's username.
pub proof fn usernames_of_lists_every_person(list: Seq<Persons>)
    ensures
        usernames_of(list).len() == list.len(),
        forall|i: int| 0 <= i < list.len() ==> #[trigger] usernames_of(list)[i] == list[i].username@,
{
}

/// The reply to a listing of every person: their usernames (never their
/// ids or passwords); 404 "No users found" when the query fails; 500
/// "Unable to retrieve users" when the worker is unreachable.
pub fn users_reply(outcome: DbReply<Vec<Persons>>) -> (r: UsersReply)
    ensures
        match outcome {
            DbReply::Done(list) => r matches UsersReply::Usernames(names)
                && names@.map_values(|n: String| n@) == usernames_of(list@)
                && names@.len() == list@.len()
                && forall|i: int| 0 <= i < list@.len() ==> #[trigger] names@[i]@ == list@[i].username@,
            DbReply::QueryFailed => r.is_message(404, "No users found"@),
            DbReply::Unreachable => r.is_message(500, "Unable to retrieve users"@),
        },
{
    match outcome {
        DbReply::Done(list) => {
            let mut names: Vec<String> = Vec::new();
            let mut i: usize = 0;
            while i < list.len()
                invariant
                    i <= list@.len(),
                    names@.len() == i,
                    forall|j: int| 0 <= j < i ==> #[trigger] names@[j]@ == list@[j].username@,
                decreases list@.len() - i,
            {
                names.push(list[i].username.clone());
                i = i + 1;
            }
            assert(names@.map_values(|n: String| n@) =~= usernames_of(list@));
            UsersReply::Usernames(names)
        },
        DbReply::QueryFailed => message(404, "No users found"),
        DbReply::Unreachable => message(500, "Unable to retrieve users"),
    }
}

/// The lookup sent for a search by username.
pub fn search_request(username: String) -> (msg: FetchOnePersons)
    ensures
        msg.username@ == username@,
{
    FetchOnePersons { username }
}

/// The reply to a search: the person's username; 404 "No users found" when
/// the query fails; 500 "Unable to retrieve users" when the worker is
/// unreachable.
pub fn search_reply(outcome: DbReply<Persons>) -> (r: UsersReply)
    ensures
        match outcome {
            DbReply::Done(p) => r matches UsersReply::Username(n) && n@ == p.username@,
            DbReply::QueryFailed => r.is_message(404, "No users found"@),
            DbReply::Unreachable => r.is_message(500, "Unable to retrieve users"@),
        },
{
    match outcome {
        DbReply::Done(p) => UsersReply::Username(p.username),
        DbReply::QueryFailed => message(404, "No users found"),
        DbReply::Unreachable => message(500, "Unable to retrieve users"),
    }
}

/// The request that creates a person with this username and the password
/// "abc", under the identifier `id` (a fresh random one).
pub fn new_user_request(username: String, id: uuid::Uuid) -> (msg: CreatePerson)
    ensures
        msg.id == id,
        msg.username@ == username@,
        msg.password@ == "abc"@,
{
    CreatePerson { id, username, password: "abc".to_owned() }
}

/// The reply to a creation: the new person's username; 208 "alreadt exist"
/// when the query fails; 500 "Unable to retrieve users" when the worker is
/// unreachable.
pub fn new_user_reply(outcome: DbReply<Persons>) -> (r: UsersReply)
    ensures
        match outcome {
            DbReply::Done(p) => r matches UsersReply::Username(n) && n@ == p.username@,
            DbReply::QueryFailed => r.is_message(208, "alreadt exist"@),
            DbReply::Unreachable => r.is_message(500, "Unable to retrieve users"@),
        },
{
    match outcome {
        DbReply::Done(p) => UsersReply::Username(p.username),
        DbReply::QueryFailed => message(208, "alreadt exist"),
        DbReply::Unreachable => message(500, "Unable to retrieve users"),
    }
}

/// The request that sets the password of this username to "12345678".
pub fn update_user_request(username: String) -> (msg: UpdatePerson)
    ensures
        msg.username@ == username@,
        msg.password@ == "12345678"@,
{
    UpdatePerson { username, password: "12345678".to_owned() }
}

/// The reply to a password update: the number of rows changed; 208
/// "alreadt exist" when the query fails; 500 "Unable to retrieve users"
/// when the worker is unreachable.
pub fn update_user_reply(outcome: DbReply<usize>) -> (r: UsersReply)
    ensures
        match outcome {
            DbReply::Done(n) => r == UsersReply::Count(n),
            DbReply::QueryFailed => r.is_message(208, "alreadt exist"@),
            DbReply::Unreachable => r.is_message(500, "Unable to retrieve users"@),
        },
{
    match outcome {
        DbReply::Done(n) => UsersReply::Count(n),
        DbReply::QueryFailed => message(208, "alreadt exist"),
        DbReply::Unreachable => message(500, "Unable to retrieve users"),
    }
}

} // verus!

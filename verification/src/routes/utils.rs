//! The records that clients send and that the stores keep.
use vstd::prelude::*;

verus! {

/// A link shared by a user. `visibility` is true for a public link and
/// false for a private one.
#[derive(Debug, Clone)]
pub struct Content {
    pub content_type: String,
    pub description: String,
    pub links: String,
    pub visibility: bool,
}

/// A link as it is shown to other users, with the id the store gave it
/// (as hexadecimal text) where the route reports one.
#[derive(Debug, Clone)]
pub struct PubContent {
    pub _id: Option<String>,
    pub username: String,
    pub content_type: String,
    pub description: String,
    pub links: String,
}

/// A signup form.
#[derive(Debug, Clone)]
pub struct User {
    pub first_name: String,
    pub last_name: String,
    pub username: String,
    pub password: String,
}

/// A signin form.
#[derive(Debug, Clone)]
pub struct LoginCred {
    pub username: String,
    pub password: String,
}

/// A grant: `my_username` lets `friend_username` see private links.
#[derive(Debug, Clone)]
pub struct Access {
    pub my_username: String,
    pub friend_username: String,
}

} // verus!

//! Link routes that take a link's owner from the submitted form, answer a
//! missing session with a pointer to the signin page, and show a user's
//! public links as text.
use vstd::prelude::*;
use crate::routes::dataa::LinkFilter;
use crate::routes::reply::{Reply, Step};

verus! {

/// A link together with its owner. `visibility` is true for a public link
/// and false for a private one.
#[derive(Debug, Clone)]
pub struct Content {
    pub username: String,
    pub content_type: String,
    pub description: String,
    pub links: String,
    pub visibility: bool,
}

/// An update of the `link` field of the links with this owner and
/// description.
#[derive(Debug, Clone)]
pub struct LinkFieldUpdate {
    pub username: String,
    pub description: String,
    pub link: String,
}

/// Adding a link: without a session, 200 "Go to signin page"; with one, the
/// form is inserted as it is.
pub fn add_data_request(identity: Option<String>, form: Content) -> (r: Step<Content>)
    ensures
        identity is None ==> r.answers(200, "Go to signin page"@),
        identity is Some ==> (r matches Step::Proceed(c) && c == form),
{
    match identity {
        None => Step::Answer(Reply::plain(200, "Go to signin page")),
        Some(_) => Step::Proceed(form),
    }
}

/// The reply to an insert: 200 "Data added Successfully!!!!!!", or 500 with
/// the failure's text.
pub fn add_data_reply(inserted: Result<(), String>) -> (r: Reply)
    ensures
        inserted is Ok ==> r.is(200, "Data added Successfully!!!!!!"@),
        inserted matches Err(e) ==> r.is(500, e@),
{
    match inserted {
        Ok(()) => Reply::plain(200, "Data added Successfully!!!!!!"),
        Err(e) => Reply::store_failure(e),
    }
}

/// Deleting links: without a session, 200 "Go to signin"; with one, the
/// filter for every link owned by `username` (the name in the path).
pub fn add_delete_request(identity: Option<String>, username: String) -> (r: Step<LinkFilter>)
    ensures
        identity is None ==> r.answers(200, "Go to signin"@),
        identity is Some ==> (r matches Step::Proceed(f) && f.is_owner(username@)),
{
    match identity {
        None => Step::Answer(Reply::plain(200, "Go to signin")),
        Some(_) => Step::Proceed(LinkFilter::owned_by(username)),
    }
}

/// The reply once links were asked to be deleted, whatever the store
/// answered.
pub fn add_delete_reply() -> (r: Reply)
    ensures
        r.is(200, "Deleted Suceessfully"@),
{
    Reply::plain(200, "Deleted Suceessfully")
}

/// Updating a link: without a session, 200 "Go to signin"; with one, the
/// form's `links` written to the `link` field of the link with the form's
/// owner and description.
pub fn update_data_request(identity: Option<String>, form: &Content) -> (r: Step<LinkFieldUpdate>)
    ensures
        identity is None ==> r.answers(200, "Go to signin"@),
        identity is Some ==> (r matches Step::Proceed(u) && u.username@ == form.username@
            && u.description@ == form.description@ && u.link@ == form.links@),
{
    match identity {
        None => Step::Answer(Reply::plain(200, "Go to signin")),
        Some(_) => Step::Proceed(
            LinkFieldUpdate {
                username: form.username.clone(),
                description: form.description.clone(),
                link: form.links.clone(),
            },
        ),
    }
}

/// The reply to an update: 200 "Data Updated Successfully!!!!!!", or 500
/// with the failure's text.
pub fn update_data_reply(updated: Result<(), String>) -> (r: Reply)
    ensures
        updated is Ok ==> r.is(200, "Data Updated Successfully!!!!!!"@),
        updated matches Err(e) ==> r.is(500, e@),
{
    match updated {
        Ok(()) => Reply::plain(200, "Data Updated Successfully!!!!!!"),
        Err(e) => Reply::store_failure(e),
    }
}

} // verus!

//! Account routes that keep users in the document store: signup, signin by
//! a lookup on the stored credentials, logout, and access grants.
use vstd::prelude::*;
use crate::routes::reply::{Reply, Step};
use crate::routes::userdata::{encode_password, stored_password};

verus! {

/// A signup form.
#[derive(Debug, Clone)]
pub struct User {
    pub first_name: String,
    pub last_name: String,
    pub username: String,
    pub password: String,
}

/// A signin form.
#[derive(Debug, Clone)]
pub struct Info {
    pub username: String,
    pub password: String,
}

/// A grant: `my_username` lets `friend_username` see private links.
#[derive(Debug, Clone)]
pub struct Access {
    pub my_username: String,
    pub friend_username: String,
}

/// The document a signup stores: the names from the form, the stored form
/// of the password, and when it was written.
#[derive(Debug, Clone)]
pub struct UserRecord {
    pub first_name: String,
    pub last_name: String,
    pub username: String,
    pub password: String,
    pub when: String,
}

/// The document stored for a signup form, written at `when` (the current
/// time).
pub fn signup_record(form: &User, when: String) -> (rec: UserRecord)
    ensures
        rec.first_name@ == form.first_name@,
        rec.last_name@ == form.last_name@,
        rec.username@ == form.username@,
        rec.password@ == stored_password(form.password@),
        rec.when@ == when@,
{
    UserRecord {
        first_name: form.first_name.clone(),
        last_name: form.last_name.clone(),
        username: form.username.clone(),
        password: encode_password(form.password.as_str()),
        when,
    }
}

/// The reply to a signup: 200 "Welcome to linkshare\n go to signin page",
/// or 500 with the failure's text.
pub fn signup_reply(inserted: Result<(), String>) -> (r: Reply)
    ensures
        inserted is Ok ==> r.is(200, "Welcome to linkshare\n go to signin page"@),
        inserted matches Err(e) ==> r.is(500, e@),
{
    match inserted {
        Ok(()) => Reply::plain(200, "Welcome to linkshare\n go to signin page"),
        Err(e) => Reply::store_failure(e),
    }
}

/// The lookup a signin sends: a user with the form's username and the
/// stored form of the form's password.
pub fn signin_filter(form: &Info) -> (f: Info)
    ensures
        f.username@ == form.username@,
        f.password@ == stored_password(form.password@),
{
    Info { username: form.username.clone(), password: encode_password(form.password.as_str()) }
}

/// How a signin ends.
#[derive(Debug)]
pub enum SigninOutcome {
    /// Remember `username` in the session and send `reply`.
    Welcome { username: String, reply: Reply },
    /// Send the reply and remember nothing.
    Refused(Reply),
}

/// The answer to a signin once the lookup replied: when a user matched, the
/// session remembers the form's username and the reply is 302 "Welcome "
/// followed by that name; when none did, 404 "Invalid username or
/// password"; a failed lookup is answered 500 with its text.
pub fn signin_reply(form: &Info, found: Result<bool, String>) -> (r: SigninOutcome)
    ensures
        found == Ok::<bool, String>(true) ==> (r matches SigninOutcome::Welcome { username, reply }
            && username@ == form.username@ && reply.is(302, "Welcome "@ + form.username@)),
        found == Ok::<bool, String>(false) ==> (r matches SigninOutcome::Refused(rep)
            && rep.is(404, "Invalid username or password"@)),
        found matches Err(e) ==> (r matches SigninOutcome::Refused(rep) && rep.is(500, e@)),
{
    match found {
        Ok(true) => {
            let mut text = "Welcome ".to_owned();
            text.append(form.username.as_str());
            SigninOutcome::Welcome {
                username: form.username.clone(),
                reply: Reply { status: 302, body: text },
            }
        },
        Ok(false) => SigninOutcome::Refused(Reply::plain(404, "Invalid username or password")),
        Err(e) => SigninOutcome::Refused(Reply::store_failure(e)),
    }
}

/// The reply to a logout: with a session, it is closed and the reply is 302
/// "logout Successfully"; without one, 302 "Go to signin page".
pub fn logout_reply(signed_in: bool) -> (r: Reply)
    ensures
        signed_in ==> r.is(302, "logout Successfully"@),
        !signed_in ==> r.is(302, "Go to signin page"@),
{
    if signed_in {
        Reply::plain(302, "logout Successfully")
    } else {
        Reply::plain(302, "Go to signin page")
    }
}

/// Granting access: without a session, 200 "Go to signin page"; with one,
/// the grant to insert, given by the session's user to the form's friend.
pub fn prv_data_request(identity: Option<String>, form: Access) -> (r: Step<Access>)
    ensures
        identity is None ==> r.answers(200, "Go to signin page"@),
        identity matches Some(id) ==> (r matches Step::Proceed(a) && a.my_username@ == id@
            && a.friend_username@ == form.friend_username@),
{
    match identity {
        None => Step::Answer(Reply::plain(200, "Go to signin page")),
        Some(id) => Step::Proceed(Access { my_username: id, friend_username: form.friend_username }),
    }
}

} // verus!

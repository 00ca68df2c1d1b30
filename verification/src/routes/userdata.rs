//! The account routes: signup, signin, access grants, viewing a friend's
//! links and deleting an account.
use vstd::prelude::*;
use vstd::utf8::encode_utf8;
use crate::codec::{base64_decode, base64_decode_inverts_encode, base64_encode, base64_standard, utf8_bytes};
use crate::queries::db_models::Persons;
use crate::queries::messages::{CreatePerson, FetchOnePersons};
use crate::queries::new_user::{DbReply, UsersReply};
use crate::routes::dataa::LinkFilter;
use crate::routes::error::{Error, ErrorType};
use crate::routes::reply::{Reply, Step};
use crate::routes::utils::{Access, LoginCred, User};

verus! {

/// The form in which a password is stored: the standard base64 text of its
/// UTF-8 bytes.
pub open spec fn stored_password(password: Seq<char>) -> Seq<char> {
    base64_standard(encode_utf8(password))
}

/// A signin with `attempt` is let in by a person whose stored password is
/// `stored`.
pub open spec fn signin_accepts(attempt: Seq<char>, stored: Seq<char>) -> bool {
    stored_password(attempt) == stored
}

/// The stored form of a password.
pub fn encode_password(password: &str) -> (encoded: String)
    ensures
        encoded@ == stored_password(password@),
        base64_decode(encoded@) == encode_utf8(password@),
{
    let encoded = base64_encode(utf8_bytes(password));
    proof {
        base64_decode_inverts_encode(encode_utf8(password@));
    }
    encoded
}

/// The stored form of a password reads back, as base64 and then as UTF-8,
/// to the password itself.
pub proof fn stored_password_reads_back(password: Seq<char>)
    ensures
        vstd::utf8::decode_utf8(base64_decode(stored_password(password))) == password,
{
    base64_decode_inverts_encode(encode_utf8(password));
    vstd::utf8::encode_utf8_decode_utf8(password);
}

/// Two different passwords never have the same stored form.
pub proof fn stored_password_injective(p: Seq<char>, q: Seq<char>)
    requires
        stored_password(p) == stored_password(q),
    ensures
        p == q,
{
    stored_password_reads_back(p);
    stored_password_reads_back(q);
}

/// A signin with a password other than the one the person signed up with
/// is refused with 401 "Invalid user id or password", however the two
/// passwords compare.
pub proof fn signin_refuses_other_password(username: Seq<char>, signup_password: Seq<char>, attempt: Seq<char>, stored: Persons)
    requires
        stored.password@ == stored_password(signup_password),
        attempt != signup_password,
    ensures
        signin_expected(username, attempt, DbReply::Done(stored)) == (401u16, "Invalid user id or password"@),
{
    if stored_password(attempt) == stored.password@ {
        stored_password_injective(attempt, signup_password);
    }
}

/// A signup: a form that failed validation is refused with 400
/// "ValidationError"; otherwise the person to create, with the form's
/// username, the stored form of its password and the identifier `id` (a
/// fresh random one).
pub fn signup_request(form: &User, valid: bool, id: uuid::Uuid) -> (r: Result<CreatePerson, Error>)
    ensures
        !valid ==> (r matches Err(e) && e.spec_is(400, "ValidationError"@)),
        valid ==> (r matches Ok(msg) && msg.id == id && msg.username@ == form.username@
            && msg.password@ == stored_password(form.password@)),
{
    if !valid {
        return Err(Error::new(ErrorType::BADREQUEST("ValidationError")));
    }
    Ok(CreatePerson {
        id,
        username: form.username.clone(),
        password: encode_password(form.password.as_str()),
    })
}

/// The answer to a signup once the person table replied: success when the
/// person was created; 400 "User Already exisit" when the insert failed;
/// 500 "Unable to retrieve users data" when the table's worker could not be
/// reached.
pub fn signup_reply(outcome: DbReply<Persons>) -> (r: Result<(), Error>)
    ensures
        outcome is Done ==> r is Ok,
        outcome is QueryFailed ==> (r matches Err(e) && e.spec_is(400, "User Already exisit"@)),
        outcome is Unreachable ==> (r matches Err(e)
            && e.spec_is(500, "Unable to retrieve users data"@)),
{
    match outcome {
        DbReply::Done(_) => Ok(()),
        DbReply::QueryFailed => Err(Error::new(ErrorType::BADREQUEST("User Already exisit"))),
        DbReply::Unreachable => Err(
            Error::new(ErrorType::InternalServerError("Unable to retrieve users data")),
        ),
    }
}

/// How a signin ends.
#[derive(Debug)]
pub enum SigninReply {
    /// The session is opened for this username (status 200, empty body).
    LoggedIn(String),
    /// The signin is refused with this error.
    Refused(Error),
    /// The person table's worker could not be reached: this JSON reply.
    Unavailable(UsersReply),
}

/// The status and text a signin ends with: for a login, 200 and the
/// username whose session is opened; otherwise the status and text of the
/// reply.
pub open spec fn signin_answer(r: SigninReply) -> (u16, Seq<char>) {
    match r {
        SigninReply::LoggedIn(u) => (200, u@),
        SigninReply::Refused(e) => (e.spec_cause().status(), e.spec_cause().text()),
        SigninReply::Unavailable(m) => match m {
            UsersReply::Message(s, t) => (s, t@),
            _ => (0, Seq::empty()),
        },
    }
}

/// What a signin with `username` and `password` ends with, given the lookup
/// of that username: a login exactly when a person was found whose stored
/// password is the stored form of `password`; the same refusal, 401
/// "Invalid user id or password", for a wrong password and for an unknown
/// username; 500 "Unable to retrieve users" when the worker is unreachable.
pub open spec fn signin_expected(username: Seq<char>, password: Seq<char>, lookup: DbReply<Persons>) -> (u16, Seq<char>) {
    match lookup {
        DbReply::Done(p) => if signin_accepts(password, p.password@) {
            (200, username)
        } else {
            (401, "Invalid user id or password"@)
        },
        DbReply::QueryFailed => (401, "Invalid user id or password"@),
        DbReply::Unreachable => (500, "Unable to retrieve users"@),
    }
}

/// The lookup a signin sends: the person with the form's username.
pub fn signin_lookup(form: &LoginCred) -> (msg: FetchOnePersons)
    ensures
        msg.username@ == form.username@,
{
    FetchOnePersons { username: form.username.clone() }
}

/// The answer to a signin once the lookup replied: the session is opened
/// for the form's username exactly when a person was found whose stored
/// password is the stored form of the given password; a wrong password and
/// an unknown username get the same refusal, 401 "Invalid user id or
/// password"; an unreachable worker gets the JSON reply 500 "Unable to
/// retrieve users".
pub fn signin_reply(form: &LoginCred, lookup: DbReply<Persons>) -> (r: SigninReply)
    ensures
        signin_answer(r) == signin_expected(form.username@, form.password@, lookup),
        match lookup {
            DbReply::Done(p) => if signin_accepts(form.password@, p.password@) {
                r matches SigninReply::LoggedIn(u) && u@ == form.username@
            } else {
                r matches SigninReply::Refused(e) && e.spec_is(401, "Invalid user id or password"@)
            },
            DbReply::QueryFailed => r matches SigninReply::Refused(e)
                && e.spec_is(401, "Invalid user id or password"@),
            DbReply::Unreachable => r matches SigninReply::Unavailable(m)
                && m.is_message(500, "Unable to retrieve users"@),
        },
{
    match lookup {
        DbReply::Done(info) => {
            let password = encode_password(form.password.as_str());
            if password == info.password {
                SigninReply::LoggedIn(form.username.clone())
            } else {
                SigninReply::Refused(
                    Error::new(ErrorType::UNAUTHORIZED("Invalid user id or password")),
                )
            }
        },
        DbReply::QueryFailed => SigninReply::Refused(
            Error::new(ErrorType::UNAUTHORIZED("Invalid user id or password")),
        ),
        DbReply::Unreachable => SigninReply::Unavailable(
            UsersReply::Message(500, "Unable to retrieve users".to_owned()),
        ),
    }
}

/// Signing up and then signing in with the same username and password
/// opens a session for that username: when the lookup finds the person the
/// signup stored, the signin ends in a login.
pub proof fn signin_after_signup_logs_in(username: Seq<char>, password: Seq<char>, stored: Persons)
    requires
        stored.username@ == username,
        stored.password@ == stored_password(password),
    ensures
        signin_expected(username, password, DbReply::Done(stored)) == (200u16, username),
{
}

/// A signin does not tell an unknown username from a wrong password: both
/// end with the same status and text.
pub proof fn unknown_user_and_wrong_password_refused_alike(username: Seq<char>, password: Seq<char>, found: Persons)
    requires
        !signin_accepts(password, found.password@),
    ensures
        signin_expected(username, password, DbReply::Done(found))
            == signin_expected(username, password, DbReply::QueryFailed),
        signin_expected(username, password, DbReply::QueryFailed)
            == (401u16, "Invalid user id or password"@),
{
}

/// The reply to a logout: 202 "logout Successfully".
pub fn logged_out_reply() -> (r: Reply)
    ensures
        r.is(202, "logout Successfully"@),
{
    Reply::plain(202, "logout Successfully")
}

/// Granting access: without a session, 401 "invalid token"; with one, the
/// grant to insert, given by the session's user (whatever the form says)
/// to the form's friend.
pub fn grant_request(identity: Option<String>, form: Access) -> (r: Step<Access>)
    ensures
        identity is None ==> r.refuses_session(),
        identity matches Some(id) ==> (r matches Step::Proceed(a) && a.my_username@ == id@
            && a.friend_username@ == form.friend_username@),
{
    match identity {
        None => Step::Answer(Reply::invalid_token()),
        Some(id) => Step::Proceed(Access { my_username: id, friend_username: form.friend_username }),
    }
}

/// The reply to a grant: 200 "Now he can access your private links", or 500
/// with the failure's text.
pub fn grant_reply(inserted: Result<(), String>) -> (r: Reply)
    ensures
        inserted is Ok ==> r.is(200, "Now he can access your private links"@),
        inserted matches Err(e) ==> r.is(500, e@),
{
    match inserted {
        Ok(()) => Reply::plain(200, "Now he can access your private links"),
        Err(e) => Reply::store_failure(e),
    }
}

/// Viewing another user's links through a grant: without a session, 401
/// "invalid token"; with one, the lookup of a grant given by `user` (the
/// owner of the links) to the session's user.
pub fn access_request(identity: Option<String>, user: String) -> (r: Step<Access>)
    ensures
        identity is None ==> r.refuses_session(),
        identity matches Some(view) ==> (r matches Step::Proceed(a) && a.my_username@ == user@
            && a.friend_username@ == view@),
{
    match identity {
        None => Step::Answer(Reply::invalid_token()),
        Some(view) => Step::Proceed(Access { my_username: user, friend_username: view }),
    }
}

/// After the grant lookup: when `owner` has granted access, the links
/// listed are all the links `owner` owns, private ones included; when there
/// is no such grant, 204 "No Content available "; a failed lookup is
/// answered 500 with its text.
pub fn access_after_lookup(owner: String, found: Result<bool, String>) -> (r: Step<LinkFilter>)
    ensures
        found == Ok::<bool, String>(true) ==> (r matches Step::Proceed(f) && f.is_owner(owner@)),
        found == Ok::<bool, String>(false) ==> r.answers(204, "No Content available "@),
        found matches Err(e) ==> r.answers(500, e@),
{
    match found {
        Ok(true) => Step::Proceed(LinkFilter::owned_by(owner)),
        Ok(false) => Step::Answer(Reply::plain(204, "No Content available ")),
        Err(e) => Step::Answer(Reply::store_failure(e)),
    }
}

/// The grants that deleting an account removes: those whose giver
/// (`my_username`) is `giver`.
#[derive(Debug, Clone)]
pub struct GrantsGivenBy {
    pub giver: String,
}

impl GrantsGivenBy {
    pub open spec fn matches(self, a: Access) -> bool {
        a.my_username@ == self.giver@
    }
}

/// The person row that deleting an account removes: the one (if any) with
/// this username.
#[derive(Debug, Clone)]
pub struct PersonNamed {
    pub username: String,
}

/// What deleting an account removes: one person row, every grant the
/// person gave, and every link the person owns. Grants given to the person
/// stay.
#[derive(Debug, Clone)]
pub struct AccountPurge {
    pub person: PersonNamed,
    pub grants: GrantsGivenBy,
    pub links: LinkFilter,
}

impl AccountPurge {
    /// The purge removes exactly what `user` has: its person row, the
    /// grants it gave and the links it owns.
    pub open spec fn is_of(self, user: Seq<char>) -> bool {
        &&& self.person.username@ == user
        &&& self.grants.giver@ == user
        &&& self.links.is_owner(user)
    }
}

/// What deleting an account does.
#[derive(Debug)]
pub enum AccountPlan {
    /// No session: answer at once.
    Unauthorized(Reply),
    /// Delete what `purge` names, close the session, then send `reply`.
    Purge { purge: AccountPurge, reply: Reply },
    /// Delete nothing, close the session, then send `reply`.
    Keep(Reply),
}

/// Deleting an account: without a session, 401 "invalid token"; with one,
/// the account of the session's user is purged exactly when the answer is
/// "Yes" (reply 200 "Account Deleted"); any other answer keeps it (reply
/// 200 "Permission Required"). The session is closed either way.
pub fn delete_account_plan(identity: Option<String>, answer: &String) -> (r: AccountPlan)
    ensures
        identity is None ==> (r matches AccountPlan::Unauthorized(rep)
            && rep.is(401, "invalid token"@)),
        identity matches Some(user) ==> if answer@ == "Yes"@ {
            r matches AccountPlan::Purge { purge, reply } && purge.is_of(user@)
                && reply.is(200, "Account Deleted"@)
        } else {
            r matches AccountPlan::Keep(rep) && rep.is(200, "Permission Required"@)
        },
{
    match identity {
        None => AccountPlan::Unauthorized(Reply::invalid_token()),
        Some(user) => {
            let yes = "Yes".to_owned();
            if answer.eq(&yes) {
                let purge = AccountPurge {
                    person: PersonNamed { username: user.clone() },
                    grants: GrantsGivenBy { giver: user.clone() },
                    links: LinkFilter::owned_by(user),
                };
                AccountPlan::Purge { purge, reply: Reply::plain(200, "Account Deleted") }
            } else {
                AccountPlan::Keep(Reply::plain(200, "Permission Required"))
            }
        },
    }
}

/// Deleting an account removes the grants the user gave and keeps every
/// grant given by someone else, the grants given to the user included.
pub proof fn purge_keeps_grants_to_the_user(purge: AccountPurge, user: Seq<char>, grant: Access)
    requires
        purge.is_of(user),
    ensures
        purge.grants.matches(grant) <==> grant.my_username@ == user,
        grant.friend_username@ == user && grant.my_username@ != user ==> !purge.grants.matches(grant),
{
}

} // verus!

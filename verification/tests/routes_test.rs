use linkshare::queries::db_models::{NewPerson, Persons};
use linkshare::queries::messages::{fresh_id, id_from_fill, CreatePerson};
use linkshare::queries::new_user::{
    new_user_reply, new_user_request, search_reply, search_request, update_user_reply,
    update_user_request, users_reply, DbReply, UsersReply,
};
use linkshare::routes::dataa::{
    add_after_lookup, add_inserted_reply, add_request, delete_all_request, delete_one_reply, delete_one_request,
    deleted_all_reply, public_links_filter, require_session, update_reply, update_request, LinkFilter,
};
use linkshare::routes::userdata::{
    access_after_lookup, access_request, delete_account_plan, logged_out_reply, encode_password, grant_reply,
    grant_request, signin_lookup, signin_reply, signup_reply, signup_request, AccountPlan,
    SigninReply,
};
use linkshare::routes::utils::{Access, Content, LoginCred, User};
use linkshare::{Error, ErrorType, Reply, Step};

fn s(t: &str) -> String {
    t.to_string()
}

fn person(name: &str, password: &str) -> Persons {
    Persons { id: uuid::Uuid::nil(), username: s(name), password: s(password) }
}

fn content() -> Content {
    Content {
        content_type: s("youtube"),
        description: s("rust demo video link"),
        links: s("https://www.youtube.com/watch?v=aYsUBddY7KY&t=2s"),
        visibility: true,
    }
}

fn answer<T>(step: Step<T>) -> Reply {
    match step {
        Step::Answer(r) => r,
        Step::Proceed(_) => panic!("expected an answer"),
    }
}

fn proceed<T>(step: Step<T>) -> T {
    match step {
        Step::Answer(r) => panic!("expected to proceed, got {:?}", r),
        Step::Proceed(t) => t,
    }
}

fn plain(status: u16, body: &str) -> Reply {
    Reply { status, body: s(body) }
}

#[test]
fn error_new_keeps_cause_and_status() {
    let e = Error::new(ErrorType::BADREQUEST("ValidationError"));
    assert_eq!(e.message(), "ValidationError");
    assert_eq!(e.status_code(), 400);
    let e = Error::new(ErrorType::UNAUTHORIZED("Invalid user id or password"));
    assert_eq!(e.message(), "Invalid user id or password");
    assert_eq!(e.status_code(), 401);
    let e = Error::new(ErrorType::InternalServerError("boom"));
    assert_eq!(e.message(), "boom");
    assert_eq!(e.status_code(), 500);
    assert!(matches!(e.cause(), ErrorType::InternalServerError("boom")));
}

#[test]
fn reply_constructors() {
    assert_eq!(Reply::invalid_token(), plain(401, "invalid token"));
    assert_eq!(Reply::plain(204, "x"), plain(204, "x"));
    assert_eq!(Reply::store_failure(s("disk full")), plain(500, "disk full"));
}

#[test]
fn password_is_stored_as_base64() {
    assert_eq!(encode_password("abc"), "YWJj");
    assert_eq!(encode_password(""), "");
    assert_eq!(encode_password("hello"), "aGVsbG8=");
    assert_eq!(encode_password("12345678"), "MTIzNDU2Nzg=");
}

#[test]
fn signup_refuses_invalid_form() {
    let form = User { first_name: s("Rammu"), last_name: s("G"), username: s("RG"), password: s("12345678") };
    match signup_request(&form, false, uuid::Uuid::nil()) {
        Err(e) => {
            assert_eq!(e.status_code(), 400);
            assert_eq!(e.message(), "ValidationError");
        },
        Ok(_) => panic!("an invalid form must be refused"),
    }
}

#[test]
fn signup_stores_encoded_password() {
    let form = User { first_name: s("Rammu"), last_name: s("G"), username: s("RG"), password: s("12345678") };
    let msg = signup_request(&form, true, uuid::Uuid::nil()).ok().expect("valid form");
    assert_eq!(msg.username, "RG");
    assert_eq!(msg.password, "MTIzNDU2Nzg=");
}

#[test]
fn signup_reply_for_each_outcome() {
    assert!(signup_reply(DbReply::Done(person("RG", "x"))).is_ok());
    let e = signup_reply(DbReply::QueryFailed).unwrap_err();
    assert_eq!((e.status_code(), e.message()), (400, "User Already exisit"));
    let e = signup_reply(DbReply::Unreachable).unwrap_err();
    assert_eq!((e.status_code(), e.message()), (500, "Unable to retrieve users data"));
}

#[test]
fn signin_after_signup_lets_in() {
    let form = User { first_name: s("A"), last_name: s("B"), username: s("RG"), password: s("12345678") };
    let created = signup_request(&form, true, uuid::Uuid::nil()).ok().unwrap();
    let row = NewPerson::from_request(created);
    let stored = Persons { id: uuid::Uuid::nil(), username: row.username, password: row.password };
    let cred = LoginCred { username: s("RG"), password: s("12345678") };
    assert_eq!(signin_lookup(&cred).username, "RG");
    match signin_reply(&cred, DbReply::Done(stored)) {
        SigninReply::LoggedIn(u) => assert_eq!(u, "RG"),
        other => panic!("expected a login, got {:?}", other),
    }
}

#[test]
fn signin_refuses_wrong_password_and_unknown_user_alike() {
    let cred = LoginCred { username: s("RG"), password: s("wrong") };
    let refused = |r: SigninReply| match r {
        SigninReply::Refused(e) => (e.status_code(), e.message()),
        other => panic!("expected a refusal, got {:?}", other),
    };
    assert_eq!(refused(signin_reply(&cred, DbReply::Done(person("RG", "MTIzNDU2Nzg=")))), (401, "Invalid user id or password"));
    assert_eq!(refused(signin_reply(&cred, DbReply::QueryFailed)), (401, "Invalid user id or password"));
    match signin_reply(&cred, DbReply::Unreachable) {
        SigninReply::Unavailable(m) => assert_eq!(m, UsersReply::Message(500, s("Unable to retrieve users"))),
        other => panic!("{:?}", other),
    }
}

#[test]
fn signin_compares_encoded_not_raw_password() {
    // the stored value equals the raw password, not its encoding: refused
    let cred = LoginCred { username: s("RG"), password: s("abc") };
    assert!(matches!(signin_reply(&cred, DbReply::Done(person("RG", "abc"))), SigninReply::Refused(_)));
    assert!(matches!(signin_reply(&cred, DbReply::Done(person("RG", "YWJj"))), SigninReply::LoggedIn(_)));
}

#[test]
fn grant_uses_session_user() {
    let form = Access { my_username: s("mallory"), friend_username: s("bob") };
    assert_eq!(answer(grant_request(None, form.clone())), plain(401, "invalid token"));
    let a = proceed(grant_request(Some(s("alice")), form));
    assert_eq!((a.my_username.as_str(), a.friend_username.as_str()), ("alice", "bob"));
    assert_eq!(grant_reply(Ok(())), plain(200, "Now he can access your private links"));
    assert_eq!(grant_reply(Err(s("dup key"))), plain(500, "dup key"));
}

#[test]
fn access_to_friend_links() {
    assert_eq!(answer(access_request(None, s("bob"))), plain(401, "invalid token"));
    // alice asks for bob's links: the grant looked up is the one bob gave alice
    let a = proceed(access_request(Some(s("alice")), s("bob")));
    assert_eq!((a.my_username.as_str(), a.friend_username.as_str()), ("bob", "alice"));
    let f: LinkFilter = proceed(access_after_lookup(s("bob"), Ok(true)));
    assert_eq!(f.username, "bob");
    assert!(f.content_type.is_none() && f.description.is_none() && f.visibility.is_none());
    assert_eq!(answer(access_after_lookup(s("alice"), Ok(false))), plain(204, "No Content available "));
    assert_eq!(answer(access_after_lookup(s("alice"), Err(s("down")))), plain(500, "down"));
}

#[test]
fn delete_account_needs_yes() {
    match delete_account_plan(None, &s("Yes")) {
        AccountPlan::Unauthorized(r) => assert_eq!(r, plain(401, "invalid token")),
        other => panic!("{:?}", other),
    }
    match delete_account_plan(Some(s("alice")), &s("Yes")) {
        AccountPlan::Purge { purge, reply } => {
            assert_eq!(purge.person.username, "alice");
            assert_eq!(purge.grants.giver, "alice");
            assert_eq!(purge.links.username, "alice");
            assert!(purge.links.content_type.is_none() && purge.links.description.is_none() && purge.links.visibility.is_none());
            assert_eq!(reply, plain(200, "Account Deleted"));
        },
        other => panic!("{:?}", other),
    }
    for ans in ["yes", "No", "", "Yes "] {
        match delete_account_plan(Some(s("alice")), &s(ans)) {
            AccountPlan::Keep(r) => assert_eq!(r, plain(200, "Permission Required")),
            other => panic!("{:?}", other),
        }
    }
}

#[test]
fn add_link_flow() {
    let form = content();
    assert_eq!(answer(require_session(None)), plain(401, "invalid token"));
    let user = proceed(require_session(Some(s("RG"))));
    assert_eq!(user, "RG");
    let (f, rec) = add_request(user, &form, s("t1"));
    assert_eq!(f.username, "RG");
    assert_eq!(f.content_type.as_deref(), Some("youtube"));
    assert_eq!(f.description.as_deref(), Some("rust demo video link"));
    assert!(f.visibility.is_none());
    assert_eq!(rec.username, "RG");
    assert_eq!(rec.links, form.links);
    assert!(rec.visibility);
    assert_eq!(rec.when, "t1");
    assert_eq!(answer(add_after_lookup(Ok(true))), plain(200, "Data Already added Successfully!!!!!!"));
    proceed(add_after_lookup(Ok(false)));
    assert_eq!(answer(add_after_lookup(Err(s("e")))), plain(500, "e"));
}

#[test]
fn delete_link_flows() {
    let form = content();
    assert_eq!(answer(delete_all_request(None)), plain(401, "invalid token"));
    let f = proceed(delete_all_request(Some(s("RG"))));
    assert_eq!(f.username, "RG");
    assert!(f.content_type.is_none() && f.description.is_none() && f.visibility.is_none());
    assert_eq!(deleted_all_reply(), plain(200, "Deleted Suceessfully"));
    assert_eq!(answer(delete_one_request(None, &form)), plain(401, "invalid token"));
    let f = proceed(delete_one_request(Some(s("RG")), &form));
    assert_eq!(f.username, "RG");
    assert_eq!(f.content_type.as_deref(), Some("youtube"));
    assert_eq!(proceed(delete_one_reply(Ok(true))), plain(202, "Deleted Data is\n "));
    assert_eq!(answer(delete_one_reply(Ok(false))), plain(204, "No Content Available"));
    assert_eq!(answer(delete_one_reply(Err(s("x")))), plain(500, "x"));
}

#[test]
fn update_link_flow() {
    let form = content();
    let (f, u) = update_request(s("RG"), &form, s("t2"));
    assert_eq!(f.username, "RG");
    assert_eq!(f.description.as_deref(), Some("rust demo video link"));
    assert_eq!(u.links, form.links);
    assert_eq!(u.when, "t2");
    assert_eq!(update_reply(Ok(())), plain(202, "Data Updated Successfully!!!!!!"));
    assert_eq!(update_reply(Err(s("x"))), plain(500, "x"));
}

#[test]
fn public_display_filter() {
    let f = public_links_filter(s("RG"));
    assert_eq!(f.username, "RG");
    assert_eq!(f.visibility, Some(true));
    assert!(f.content_type.is_none() && f.description.is_none());
}

#[test]
fn person_routes() {
    let listed = users_reply(DbReply::Done(vec![person("a", "p1"), person("b", "p2")]));
    assert_eq!(listed, UsersReply::Usernames(vec![s("a"), s("b")]));
    assert_eq!(users_reply(DbReply::Done(vec![])), UsersReply::Usernames(vec![]));
    assert_eq!(users_reply(DbReply::QueryFailed), UsersReply::Message(404, s("No users found")));
    assert_eq!(users_reply(DbReply::Unreachable), UsersReply::Message(500, s("Unable to retrieve users")));

    assert_eq!(search_request(s("a")).username, "a");
    assert_eq!(search_reply(DbReply::Done(person("a", "p"))), UsersReply::Username(s("a")));
    assert_eq!(search_reply(DbReply::QueryFailed), UsersReply::Message(404, s("No users found")));
    assert_eq!(search_reply(DbReply::Unreachable), UsersReply::Message(500, s("Unable to retrieve users")));

    let id = fresh_id().expect("random source");
    let m: CreatePerson = new_user_request(s("n"), id);
    assert_eq!((m.username.as_str(), m.password.as_str()), ("n", "abc"));
    assert_eq!(m.id, id);
    assert_eq!(new_user_reply(DbReply::Done(person("n", "abc"))), UsersReply::Username(s("n")));
    assert_eq!(new_user_reply(DbReply::QueryFailed), UsersReply::Message(208, s("alreadt exist")));
    assert_eq!(new_user_reply(DbReply::Unreachable), UsersReply::Message(500, s("Unable to retrieve users")));

    let u = update_user_request(s("n"));
    assert_eq!((u.username.as_str(), u.password.as_str()), ("n", "12345678"));
    assert_eq!(update_user_reply(DbReply::Done(1)), UsersReply::Count(1));
    assert_eq!(update_user_reply(DbReply::QueryFailed), UsersReply::Message(208, s("alreadt exist")));
    assert_eq!(update_user_reply(DbReply::Unreachable), UsersReply::Message(500, s("Unable to retrieve users")));
}

#[test]
fn new_person_row_drops_request_id() {
    let msg = CreatePerson { id: uuid::Uuid::nil(), username: s("u"), password: s("p") };
    let row = NewPerson::from_request(msg);
    assert_eq!((row.username.as_str(), row.password.as_str()), ("u", "p"));
}

#[test]
fn insert_reply_of_add() {
    assert_eq!(add_inserted_reply(Ok(s("InsertOneResult"))), plain(200, "InsertOneResult"));
    assert_eq!(add_inserted_reply(Err(s("dup"))), plain(500, "dup"));
}

#[test]
fn fresh_ids_are_random_version_four() {
    let a = fresh_id().expect("random source");
    let b = fresh_id().expect("random source");
    assert_ne!(a, b);
    assert_eq!(a.get_version_num(), 4);
    assert_eq!(b.get_variant(), uuid::Variant::RFC4122);
}

#[test]
fn id_follows_fill_outcome() {
    assert!(id_from_fill(false, &[1u8; 16]).is_none());
    let id = id_from_fill(true, &[1u8; 16]).expect("filled");
    assert_eq!(id.get_version_num(), 4);
    assert_ne!(id.as_bytes(), &[1u8; 16]);
}

#[test]
fn logout_answer() {
    assert_eq!(logged_out_reply(), plain(202, "logout Successfully"));
}

use linkshare::clock::{now_text, text_of_elapsed, LAST_DISPLAYABLE_SECOND};
use linkshare::codec::to_hex_upper;
use linkshare::config::listener_address;
use linkshare::configure::{push_decimal, Configure};
use linkshare::dataa::{
    add_data_reply, add_data_request, add_delete_reply, add_delete_request, update_data_reply,
    update_data_request, Content,
};
use linkshare::kdf::{derive_and_verify, fresh_salt, salt_from_fill, signin_self_check, CREDENTIAL_LEN};
use linkshare::userdata::{
    logout_reply, prv_data_request, signin_filter, signin_reply, signup_record, signup_reply,
    Access, Info, SigninOutcome, User,
};
use linkshare::{Reply, Step};

fn s(t: &str) -> String {
    t.to_string()
}

fn plain(status: u16, body: &str) -> Reply {
    Reply { status, body: s(body) }
}

fn answer<T>(step: Step<T>) -> Reply {
    match step {
        Step::Answer(r) => r,
        Step::Proceed(_) => panic!("expected an answer"),
    }
}

fn proceed<T>(step: Step<T>) -> T {
    match step {
        Step::Answer(r) => panic!("expected to proceed, got {:?}", r),
        Step::Proceed(t) => t,
    }
}

#[test]
fn hex_upper_encoding() {
    assert_eq!(to_hex_upper(&[0xde, 0xad, 0xbe, 0xef]), "DEADBEEF");
    assert_eq!(to_hex_upper(&[]), "");
    assert_eq!(to_hex_upper(&[0x00, 0x0f, 0xa0]), "000FA0");
}

#[test]
fn listener_of_configure() {
    let c = Configure { host: s("127.0.0.1"), port: 8080, mongo_db_url: s("m"), postgres_db_url: s("p") };
    assert_eq!(c.listener(), "127.0.0.1:8080");
    let c = Configure { host: s("localhost"), port: 0, mongo_db_url: s("m"), postgres_db_url: s("p") };
    assert_eq!(c.listener(), "localhost:0");
    let mut out = s("#");
    push_decimal(&mut out, u32::MAX);
    assert_eq!(out, "#4294967295");
}

#[test]
fn listener_of_host_and_port() {
    assert_eq!(listener_address("0.0.0.0", "8000"), "0.0.0.0:8000");
    assert_eq!(listener_address("", ""), ":");
}

#[test]
fn pbkdf2_round_trip() {
    let salt = fresh_salt().expect("random source");
    assert_eq!(salt.len(), CREDENTIAL_LEN);
    assert_ne!(salt, vec![0u8; CREDENTIAL_LEN]);
    let (hash, ok) = derive_and_verify(&salt, b"secret");
    assert!(ok);
    assert_eq!(hash.len(), CREDENTIAL_LEN);
    assert_ne!(hash, vec![0u8; CREDENTIAL_LEN]);
    let (again, _) = derive_and_verify(&salt, b"secret");
    assert_eq!(hash, again);
    let (other, _) = derive_and_verify(&salt, b"Secret");
    assert_ne!(hash, other);
    let (check, ok) = signin_self_check(&salt);
    assert!(ok);
    assert_eq!(check, derive_and_verify(&salt, "Guess Me If You Can!".as_bytes()).0);
}

#[test]
fn link_form_routes() {
    let form = Content {
        username: s("RG"),
        content_type: s("youtube"),
        description: s("demo"),
        links: s("https://example.org"),
        visibility: false,
    };
    assert_eq!(answer(add_data_request(None, form.clone())), plain(200, "Go to signin page"));
    let c = proceed(add_data_request(Some(s("someone")), form.clone()));
    assert_eq!(c.username, "RG");
    assert_eq!(add_data_reply(Ok(())), plain(200, "Data added Successfully!!!!!!"));
    assert_eq!(add_data_reply(Err(s("e"))), plain(500, "e"));
    assert_eq!(answer(add_delete_request(None, s("RG"))), plain(200, "Go to signin"));
    let f = proceed(add_delete_request(Some(s("x")), s("RG")));
    assert_eq!(f.username, "RG");
    assert_eq!(add_delete_reply(), plain(200, "Deleted Suceessfully"));
    assert_eq!(answer(update_data_request(None, &form)), plain(200, "Go to signin"));
    let u = proceed(update_data_request(Some(s("x")), &form));
    assert_eq!((u.username.as_str(), u.description.as_str(), u.link.as_str()), ("RG", "demo", "https://example.org"));
    assert_eq!(update_data_reply(Ok(())), plain(200, "Data Updated Successfully!!!!!!"));
    assert_eq!(update_data_reply(Err(s("e"))), plain(500, "e"));
}

#[test]
fn store_account_routes() {
    let form = User { first_name: s("Rammu"), last_name: s("G"), username: s("RG"), password: s("abc") };
    let rec = signup_record(&form, s("t"));
    assert_eq!(rec.when, "t");
    assert_eq!((rec.first_name.as_str(), rec.last_name.as_str(), rec.username.as_str(), rec.password.as_str()), ("Rammu", "G", "RG", "YWJj"));
    assert_eq!(signup_reply(Ok(())), plain(200, "Welcome to linkshare\n go to signin page"));
    assert_eq!(signup_reply(Err(s("dup"))), plain(500, "dup"));
    let info = Info { username: s("RG"), password: s("abc") };
    let f = signin_filter(&info);
    assert_eq!((f.username.as_str(), f.password.as_str()), ("RG", rec.password.as_str()));
    match signin_reply(&info, Ok(true)) {
        SigninOutcome::Welcome { username, reply } => {
            assert_eq!(username, "RG");
            assert_eq!(reply, plain(302, "Welcome RG"));
        },
        other => panic!("{:?}", other),
    }
    match signin_reply(&info, Ok(false)) {
        SigninOutcome::Refused(r) => assert_eq!(r, plain(404, "Invalid username or password")),
        other => panic!("{:?}", other),
    }
    match signin_reply(&info, Err(s("down"))) {
        SigninOutcome::Refused(r) => assert_eq!(r, plain(500, "down")),
        other => panic!("{:?}", other),
    }
    assert_eq!(logout_reply(true), plain(302, "logout Successfully"));
    assert_eq!(logout_reply(false), plain(302, "Go to signin page"));
    let grant = Access { my_username: s("mallory"), friend_username: s("bob") };
    assert_eq!(answer(prv_data_request(None, grant.clone())), plain(200, "Go to signin page"));
    let a = proceed(prv_data_request(Some(s("alice")), grant));
    assert_eq!((a.my_username.as_str(), a.friend_username.as_str()), ("alice", "bob"));
}

#[test]
fn salt_follows_fill_outcome() {
    assert_eq!(salt_from_fill(true, vec![7u8, 8, 9]), Some(vec![7u8, 8, 9]));
    assert_eq!(salt_from_fill(false, vec![7u8, 8, 9]), None);
}

#[test]
fn utc_time_text() {
    assert_eq!(text_of_elapsed(0, 0).unwrap(), "1970-01-01 00:00:00 UTC");
    assert_eq!(text_of_elapsed(1_700_000_000, 5).unwrap(), "2023-11-14 22:13:20.000000005 UTC");
    assert_eq!(text_of_elapsed(253_402_300_800, 0).unwrap(), "+10000-01-01 00:00:00 UTC");
    assert_eq!(text_of_elapsed(LAST_DISPLAYABLE_SECOND as u64, 0).unwrap(), "+262142-12-31 23:59:59 UTC");
    assert!(text_of_elapsed(LAST_DISPLAYABLE_SECOND as u64 + 1, 0).is_none());
    assert!(text_of_elapsed(u64::MAX, 999_999_999).is_none());
    let now = now_text().expect("clock after 1970");
    assert!(now.ends_with(" UTC"));
    assert!(now.as_str() > "2023-11-14");
}

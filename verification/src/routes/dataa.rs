//! The link routes: the filters they send to the link collection, the
//! records they write, and the replies they choose.
use vstd::prelude::*;
use crate::routes::reply::{Reply, Step};
use crate::routes::utils::Content;

verus! {

/// A stored link, owned by `username`.
#[derive(Debug, Clone)]
pub struct LinkRecord {
    pub username: String,
    pub content_type: String,
    pub description: String,
    pub links: String,
    pub visibility: bool,
    /// When the record was written, as text.
    pub when: String,
}

/// An equality filter on the link collection: a record matches when its
/// owner is `username` and it has each of the other fields that are given.
#[derive(Debug, Clone)]
pub struct LinkFilter {
    pub username: String,
    pub content_type: Option<String>,
    pub description: Option<String>,
    pub visibility: Option<bool>,
}

/// The new values written by an update.
#[derive(Debug, Clone)]
pub struct LinkUpdate {
    pub links: String,
    pub when: String,
}

impl LinkFilter {
    pub open spec fn matches(self, r: LinkRecord) -> bool {
        &&& self.username@ == r.username@
        &&& (self.content_type matches Some(c) ==> c@ == r.content_type@)
        &&& (self.description matches Some(d) ==> d@ == r.description@)
        &&& (self.visibility matches Some(v) ==> v == r.visibility)
    }

    /// The filter picks the one link of `user` with this content type and
    /// description.
    pub open spec fn is_key(self, user: Seq<char>, content_type: Seq<char>, description: Seq<char>) -> bool {
        &&& self.username@ == user
        &&& self.content_type matches Some(c) && c@ == content_type
        &&& self.description matches Some(d) && d@ == description
        &&& self.visibility is None
    }

    /// The filter picks every link of `user`.
    pub open spec fn is_owner(self, user: Seq<char>) -> bool {
        &&& self.username@ == user
        &&& self.content_type is None
        &&& self.description is None
        &&& self.visibility is None
    }

    /// The filter picks the public links of `user`.
    pub open spec fn is_public_of(self, user: Seq<char>) -> bool {
        &&& self.username@ == user
        &&& self.content_type is None
        &&& self.description is None
        &&& self.visibility == Some(true)
    }

    /// The filter that picks every link of `user`.
    pub fn owned_by(user: String) -> (f: LinkFilter)
        ensures
            f.is_owner(user@),
    {
        LinkFilter { username: user, content_type: None, description: None, visibility: None }
    }

    /// The filter that picks the link of `user` with the content type and
    /// description of `form`.
    pub fn key_of(user: String, form: &Content) -> (f: LinkFilter)
        ensures
            f.is_key(user@, form.content_type@, form.description@),
    {
        LinkFilter {
            username: user,
            content_type: Some(form.content_type.clone()),
            description: Some(form.description.clone()),
            visibility: None,
        }
    }
}

/// The session check of a route: without a session, 401 "invalid token";
/// with one, the session's user.
pub fn require_session(identity: Option<String>) -> (r: Step<String>)
    ensures
        identity is None ==> r.refuses_session(),
        identity matches Some(id) ==> (r matches Step::Proceed(u) && u@ == id@),
{
    match identity {
        None => Step::Answer(Reply::invalid_token()),
        Some(id) => Step::Proceed(id),
    }
}

/// Adding a link for the session's user `user`: the duplicate lookup (the
/// user's link with the form's content type and description) and the
/// record to insert, owned by `user` and carrying the form's fields and
/// `when` (the current time).
pub fn add_request(user: String, form: &Content, when: String) -> (r: (LinkFilter, LinkRecord))
    ensures
        r.0.is_key(user@, form.content_type@, form.description@),
        r.1.username@ == user@,
        r.1.content_type@ == form.content_type@,
        r.1.description@ == form.description@,
        r.1.links@ == form.links@,
        r.1.visibility == form.visibility,
        r.1.when@ == when@,
        r.0.matches(r.1),
{
    let filter = LinkFilter::key_of(user.clone(), form);
    let record = LinkRecord {
        username: user,
        content_type: form.content_type.clone(),
        description: form.description.clone(),
        links: form.links.clone(),
        visibility: form.visibility,
        when,
    };
    (filter, record)
}

/// After the duplicate lookup of an add: a found link is answered 200
/// "Data Already added Successfully!!!!!!" and nothing is inserted; when
/// none is found the insert goes ahead; a failed lookup is answered 500
/// with the failure's text.
pub fn add_after_lookup(found: Result<bool, String>) -> (r: Step<()>)
    ensures
        found == Ok::<bool, String>(true) ==> r.answers(200, "Data Already added Successfully!!!!!!"@),
        found == Ok::<bool, String>(false) ==> r is Proceed,
        found matches Err(e) ==> r.answers(500, e@),
{
    match found {
        Ok(true) => Step::Answer(Reply::plain(200, "Data Already added Successfully!!!!!!")),
        Ok(false) => Step::Proceed(()),
        Err(e) => Step::Answer(Reply::store_failure(e)),
    }
}

/// The reply to the insert of an add: 200 with the text describing the
/// insert's result, or 500 with the failure's text.
pub fn add_inserted_reply(inserted: Result<String, String>) -> (r: Reply)
    ensures
        inserted matches Ok(t) ==> r.is(200, t@),
        inserted matches Err(e) ==> r.is(500, e@),
{
    match inserted {
        Ok(t) => Reply { status: 200, body: t },
        Err(e) => Reply::store_failure(e),
    }
}

/// Deleting all of a user's links: without a session, 401 "invalid
/// token"; with one, the filter for every link of the session's user.
pub fn delete_all_request(identity: Option<String>) -> (r: Step<LinkFilter>)
    ensures
        identity is None ==> r.refuses_session(),
        identity matches Some(id) ==> (r matches Step::Proceed(f) && f.is_owner(id@)),
{
    match identity {
        None => Step::Answer(Reply::invalid_token()),
        Some(id) => Step::Proceed(LinkFilter::owned_by(id)),
    }
}

/// The reply once all of a user's links were asked to be deleted, whatever
/// the store answered.
pub fn deleted_all_reply() -> (r: Reply)
    ensures
        r.is(200, "Deleted Suceessfully"@),
{
    Reply::plain(200, "Deleted Suceessfully")
}

/// Deleting one link: without a session, 401 "invalid token"; with one,
/// the filter for the session user's link with the form's content type and
/// description.
pub fn delete_one_request(identity: Option<String>, form: &Content) -> (r: Step<LinkFilter>)
    ensures
        identity is None ==> r.refuses_session(),
        identity matches Some(id) ==> (r matches Step::Proceed(f)
            && f.is_key(id@, form.content_type@, form.description@)),
{
    match identity {
        None => Step::Answer(Reply::invalid_token()),
        Some(id) => Step::Proceed(LinkFilter::key_of(id, form)),
    }
}

/// After deleting one link: when a link was deleted, the reply is 202
/// "Deleted Data is\n " followed by the deleted link; when none matched,
/// 204 "No Content Available"; a failure is answered 500 with its text.
pub fn delete_one_reply(deleted: Result<bool, String>) -> (r: Step<Reply>)
    ensures
        deleted == Ok::<bool, String>(true) ==> (r matches Step::Proceed(head)
            && head.is(202, "Deleted Data is\n "@)),
        deleted == Ok::<bool, String>(false) ==> r.answers(204, "No Content Available"@),
        deleted matches Err(e) ==> r.answers(500, e@),
{
    match deleted {
        Ok(true) => Step::Proceed(Reply::plain(202, "Deleted Data is\n ")),
        Ok(false) => Step::Answer(Reply::plain(204, "No Content Available")),
        Err(e) => Step::Answer(Reply::store_failure(e)),
    }
}

/// Updating a link of the session's user `user`: the filter for the
/// user's link with the form's content type and description, and the new
/// link text with `when` (the current time).
pub fn update_request(user: String, form: &Content, when: String) -> (r: (LinkFilter, LinkUpdate))
    ensures
        r.0.is_key(user@, form.content_type@, form.description@),
        r.1.links@ == form.links@,
        r.1.when@ == when@,
{
    let f = LinkFilter::key_of(user, form);
    (f, LinkUpdate { links: form.links.clone(), when })
}

/// The reply to an update: 202 "Data Updated Successfully!!!!!!", or 500
/// with the failure's text.
pub fn update_reply(updated: Result<(), String>) -> (r: Reply)
    ensures
        updated is Ok ==> r.is(202, "Data Updated Successfully!!!!!!"@),
        updated matches Err(e) ==> r.is(500, e@),
{
    match updated {
        Ok(()) => Reply::plain(202, "Data Updated Successfully!!!!!!"),
        Err(e) => Reply::store_failure(e),
    }
}

/// Displaying a user's links: the filter for the public links of that user.
pub fn public_links_filter(username: String) -> (f: LinkFilter)
    ensures
        f.is_public_of(username@),
{
    LinkFilter { username, content_type: None, description: None, visibility: Some(true) }
}

/// The lookup of a link by its key finds the record that an add with the
/// same user, content type and description wrote; so a repeated add is
/// answered "Data Already added" and an update or a delete by that key
/// reaches the added link.
pub proof fn key_filter_finds_added_record(
    f: LinkFilter,
    rec: LinkRecord,
    user: Seq<char>,
    content_type: Seq<char>,
    description: Seq<char>,
)
    requires
        f.is_key(user, content_type, description),
        rec.username@ == user,
        rec.content_type@ == content_type,
        rec.description@ == description,
    ensures
        f.matches(rec),
{
}

/// A lookup, update or delete by key touches only the link of that user
/// with that content type and description: never another user's link.
pub proof fn key_filter_touches_only_its_key(
    f: LinkFilter,
    rec: LinkRecord,
    user: Seq<char>,
    content_type: Seq<char>,
    description: Seq<char>,
)
    requires
        f.is_key(user, content_type, description),
        f.matches(rec),
    ensures
        rec.username@ == user,
        rec.content_type@ == content_type,
        rec.description@ == description,
{
}

/// Deleting all of a user's links removes exactly the links that user owns.
pub proof fn owner_filter_is_exactly_the_owner(f: LinkFilter, rec: LinkRecord, user: Seq<char>)
    requires
        f.is_owner(user),
    ensures
        f.matches(rec) <==> rec.username@ == user,
{
}

/// Displaying a user's links shows only that user's public links: a private
/// link is never matched.
pub proof fn public_filter_hides_private_links(f: LinkFilter, rec: LinkRecord, user: Seq<char>)
    requires
        f.is_public_of(user),
    ensures
        f.matches(rec) <==> (rec.username@ == user && rec.visibility),
{
}

/// Two links have the same owner, content type and description.
pub open spec fn same_key(a: LinkRecord, b: LinkRecord) -> bool {
    a.username@ == b.username@ && a.content_type@ == b.content_type@
        && a.description@ == b.description@
}

/// No two links in the collection share owner, content type and description.
pub open spec fn keys_unique(store: Seq<LinkRecord>) -> bool {
    forall|i: int, j: int| 0 <= i < j < store.len() ==> !same_key(#[trigger] store[i], #[trigger] store[j])
}

/// Some link in the collection matches the filter.
pub open spec fn has_match(store: Seq<LinkRecord>, f: LinkFilter) -> bool {
    exists|i: int| 0 <= i < store.len() && f.matches(#[trigger] store[i])
}

/// Adding a link keeps the owner, content type and description of the
/// links unique: the insert happens only when the duplicate lookup found
/// nothing, and the inserted link has the key that lookup searched.
pub proof fn add_keeps_keys_unique(
    store: Seq<LinkRecord>,
    f: LinkFilter,
    rec: LinkRecord,
    user: Seq<char>,
    content_type: Seq<char>,
    description: Seq<char>,
)
    requires
        keys_unique(store),
        f.is_key(user, content_type, description),
        rec.username@ == user,
        rec.content_type@ == content_type,
        rec.description@ == description,
        !has_match(store, f),
    ensures
        keys_unique(store.push(rec)),
{
    let s2 = store.push(rec);
    assert forall|i: int, j: int| 0 <= i < j < s2.len() implies !same_key(#[trigger] s2[i], #[trigger] s2[j]) by {
        if j == store.len() {
            if same_key(s2[i], s2[j]) {
                assert(f.matches(store[i]));
            }
        } else {
            assert(s2[i] == store[i] && s2[j] == store[j]);
        }
    }
}

/// Once a link was added, a later add of the same content type and
/// description by the same user finds it, and so inserts nothing.
pub proof fn repeated_add_finds_first(
    store: Seq<LinkRecord>,
    f: LinkFilter,
    rec: LinkRecord,
    user: Seq<char>,
    content_type: Seq<char>,
    description: Seq<char>,
)
    requires
        f.is_key(user, content_type, description),
        rec.username@ == user,
        rec.content_type@ == content_type,
        rec.description@ == description,
    ensures
        has_match(store.push(rec), f),
{
    assert(f.matches(store.push(rec)[store.len() as int]));
}

/// In a collection with unique keys, deleting the link that a key filter
/// matched leaves no link that the filter matches.
pub proof fn delete_by_key_removes_it(
    store: Seq<LinkRecord>,
    f: LinkFilter,
    k: int,
    user: Seq<char>,
    content_type: Seq<char>,
    description: Seq<char>,
)
    requires
        keys_unique(store),
        f.is_key(user, content_type, description),
        0 <= k < store.len(),
        f.matches(store[k]),
    ensures
        !has_match(store.remove(k), f),
{
    let s2 = store.remove(k);
    assert forall|i: int| 0 <= i < s2.len() implies !f.matches(#[trigger] s2[i]) by {
        if i < k {
            assert(s2[i] == store[i]);
            if f.matches(s2[i]) {
                assert(same_key(store[i], store[k]));
            }
        } else {
            assert(s2[i] == store[i + 1]);
            if f.matches(s2[i]) {
                assert(same_key(store[k], store[i + 1]));
            }
        }
    }
}

} // verus!

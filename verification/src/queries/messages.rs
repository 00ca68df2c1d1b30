//! Requests sent to the person table's worker.
use vstd::prelude::*;
use crate::kdf::{fill_random, system_random};

verus! {

#[verifier::external_type_specification]
#[verifier::external_body]
pub struct ExUuid(uuid::Uuid);

/// The version-4 (random) identifier made from 16 random bytes, with
/// `uuid::Builder::from_random_bytes(..).into_uuid()`, which sets the
/// version and variant bits and keeps the other bits.
///
/// Nothing is claimed of the identifier: its bits are not visible here.
#[verifier::external_body]
fn uuid_from_random_bytes(bytes: &[u8]) -> uuid::Uuid
    requires
        bytes@.len() == 16,
{
    uuid::Builder::from_random_bytes(bytes.try_into().unwrap()).into_uuid()
}

/// A fresh random identifier, made from 16 bytes of the system's random
/// source; `None` when that source failed.
pub fn fresh_id() -> (id: Option<uuid::Uuid>) {
    let rng = system_random();
    let mut bytes = vec![0u8; 16];
    let filled = fill_random(&rng, &mut bytes);
    id_from_fill(filled, bytes.as_slice())
}

/// The identifier once the random source has filled the 16 `bytes`: the
/// version-4 identifier made from them when the source reported success,
/// `None` when it reported a failure.
pub fn id_from_fill(filled: bool, bytes: &[u8]) -> (id: Option<uuid::Uuid>)
    requires
        bytes@.len() == 16,
    ensures
        id is Some <==> filled,
{
    if filled {
        Some(uuid_from_random_bytes(bytes))
    } else {
        None
    }
}

/// Asks for every person.
pub struct FetchPersonsAll;

/// Asks to store a new person.
pub struct CreatePerson {
    pub id: uuid::Uuid,
    pub username: String,
    pub password: String,
}

/// Asks for the person with this username.
pub struct FetchOnePersons {
    pub username: String,
}

/// Asks to set the password of the person with this username.
pub struct UpdatePerson {
    pub username: String,
    pub password: String,
}

} // verus!

//! Store-native record identities and the clock, as plain values.

use vstd::prelude::*;
use crate::config::Engine;

verus! {

/// A record identity in the form its store uses: the twelve bytes of a
/// document id, or the 128 bits of a UUID.
#[derive(Clone, Copy, Debug, PartialEq, Eq)]
pub enum RecordId {
    Document([u8; 12]),
    Relational(u128),
}

impl RecordId {
    /// The engine whose identities have this form.
    pub open spec fn engine_of(self) -> Engine {
        match self {
            RecordId::Document(_) => Engine::Document,
            RecordId::Relational(_) => Engine::Relational,
        }
    }

    pub fn engine(&self) -> (e: Engine)
        ensures
            e == self.engine_of(),
    {
        match self {
            RecordId::Document(_) => Engine::Document,
            RecordId::Relational(_) => Engine::Relational,
        }
    }

    /// Mints a fresh identity for the given engine. Which one comes back is
    /// not determined; only its form is.
    pub fn mint(engine: Engine) -> (id: RecordId)
        ensures
            id.engine_of() == engine,
    {
        match engine {
            Engine::Document => RecordId::Document(fresh_document_id()),
            Engine::Relational => RecordId::Relational(fresh_relational_id()),
        }
    }
}

/// Calls `bson::oid::ObjectId::new` and hands out the bytes of the id.
/// Trusted, with nothing claimed of the bytes: they depend on the clock, the
/// process and a counter.
#[verifier::external_body]
fn fresh_document_id() -> (bytes: [u8; 12]) {
    bson::oid::ObjectId::new().bytes()
}

/// Calls `uuid::Uuid::new_v4` and hands out the UUID as one number. Trusted,
/// with nothing claimed of the number: it is random.
#[verifier::external_body]
fn fresh_relational_id() -> (value: u128) {
    uuid::Uuid::new_v4().as_u128()
}

/// Calls `chrono::Utc::now` and hands out the milliseconds since the Unix
/// epoch. Trusted, with nothing claimed of the number. The outside function
/// panics where the system clock stands before the epoch.
#[verifier::external_body]
pub(crate) fn current_time_millis() -> (millis: i64) {
    chrono::Utc::now().timestamp_millis()
}

} // verus!

//! The stored form of a seeded account.

use vstd::prelude::*;
use crate::data::DefaultUserView;
use crate::identity::RecordId;

verus! {

/// Who wrote a record and when, in milliseconds since the Unix epoch.
#[derive(Clone, Copy, Debug, PartialEq, Eq)]
pub struct Timestamps {
    pub created_at: i64,
    pub created_by: RecordId,
    pub updated_at: i64,
    pub updated_by: RecordId,
}

/// An account as it is stored.
#[derive(Clone, Debug, PartialEq, Eq)]
pub struct User {
    pub id: RecordId,
    pub name: String,
    pub email: String,
    pub password: String,
    pub role: String,
    pub timestamps: Timestamps,
}

pub struct UserView {
    pub id: RecordId,
    pub name: Seq<char>,
    pub email: Seq<char>,
    pub password: Seq<char>,
    pub role: Seq<char>,
    pub timestamps: Timestamps,
}

impl View for User {
    type V = UserView;

    open spec fn view(&self) -> UserView {
        UserView {
            id: self.id,
            name: self.name@,
            email: self.email@,
            password: self.password@,
            role: self.role@,
            timestamps: self.timestamps,
        }
    }
}

/// The stored form of a default record: its four fields as given, the secret
/// included, under the identity `id`, written at `now` by `system`.
pub open spec fn seeded_record(
    record: DefaultUserView,
    id: RecordId,
    system: RecordId,
    now: i64,
) -> UserView {
    UserView {
        id,
        name: record.name,
        email: record.email,
        password: record.password,
        role: record.role,
        timestamps: Timestamps {
            created_at: now,
            created_by: system,
            updated_at: now,
            updated_by: system,
        },
    }
}

} // verus!

//! Seeding default records: a record is inserted only where no stored record
//! has its natural key, the e-mail address; a stored record is never changed.

use vstd::prelude::*;
use crate::config::Engine;
use crate::data::{DefaultUser, DefaultUserView, DefaultUsers};
use crate::identity::{current_time_millis, RecordId};
use crate::models::{seeded_record, Timestamps, User, UserView};
use crate::names::copy_names;

verus! {

/// The stored form of a default record.
pub fn materialize(record: &DefaultUser, id: RecordId, system: RecordId, now: i64) -> (user: User)
    ensures
        user@ == seeded_record(record@, id, system, now),
{
    User {
        id,
        name: record.name.clone(),
        email: record.email.clone(),
        password: record.password.clone(),
        role: record.role.clone(),
        timestamps: Timestamps {
            created_at: now,
            created_by: system,
            updated_at: now,
            updated_by: system,
        },
    }
}

/// Where seeding stands.
#[derive(Clone, Copy, Debug, PartialEq, Eq, Structural)]
pub enum SeedPhase {
    /// The current record's key is being looked up.
    Looking,
    /// The current record is being inserted.
    Inserting,
    /// Every record was inserted or skipped.
    Finished,
    /// A lookup failed; the rest was not tried.
    LookupFailed,
    /// An insertion failed; the rest was not tried.
    InsertFailed,
}

/// What the store answered.
#[derive(Clone, Debug, PartialEq, Eq)]
pub enum SeedEvent {
    /// A stored record has the key looked up.
    Found,
    /// No stored record has the key looked up. The answer carries the
    /// identity and the time under which the record is to be stored.
    Absent { id: RecordId, now: i64 },
    /// The lookup failed.
    LookupFailed,
    /// The record was inserted.
    Inserted,
    /// The insertion failed, for this reason.
    InsertFailed(String),
}

pub enum SeedEventView {
    Found,
    Absent { id: RecordId, now: i64 },
    LookupFailed,
    Inserted,
    InsertFailed(Seq<char>),
}

impl View for SeedEvent {
    type V = SeedEventView;

    open spec fn view(&self) -> SeedEventView {
        match self {
            SeedEvent::Found => SeedEventView::Found,
            SeedEvent::Absent { id, now } => SeedEventView::Absent { id: *id, now: *now },
            SeedEvent::LookupFailed => SeedEventView::LookupFailed,
            SeedEvent::Inserted => SeedEventView::Inserted,
            SeedEvent::InsertFailed(cause) => SeedEventView::InsertFailed(cause@),
        }
    }
}

/// The answer "no such record", with an identity freshly minted for the
/// engine and the current time.
pub fn absent_event(engine: Engine) -> (event: SeedEvent)
    ensures
        event@ matches SeedEventView::Absent { id, .. } && id.engine_of() == engine,
{
    let id = RecordId::mint(engine);
    let now = current_time_millis();
    SeedEvent::Absent { id, now }
}

/// What seeding did, by natural key, each list in input order.
#[derive(Clone, Debug, PartialEq, Eq)]
pub struct SeedReport {
    pub inserted: Vec<String>,
    pub skipped: Vec<String>,
}

pub struct SeedReportView {
    pub inserted: Seq<Seq<char>>,
    pub skipped: Seq<Seq<char>>,
}

impl View for SeedReport {
    type V = SeedReportView;

    open spec fn view(&self) -> SeedReportView {
        SeedReportView { inserted: self.inserted.deep_view(), skipped: self.skipped.deep_view() }
    }
}

/// Why seeding failed.
#[derive(Clone, Debug, PartialEq, Eq)]
pub enum SeedError {
    /// A lookup by natural key failed.
    LookupFailed,
    /// The record with this natural key could not be inserted; the key and
    /// the cause.
    InsertFailed(String, String),
}

pub enum SeedErrorView {
    LookupFailed,
    InsertFailed(Seq<char>, Seq<char>),
}

impl View for SeedError {
    type V = SeedErrorView;

    open spec fn view(&self) -> SeedErrorView {
        match self {
            SeedError::LookupFailed => SeedErrorView::LookupFailed,
            SeedError::InsertFailed(key, cause) => SeedErrorView::InsertFailed(key@, cause@),
        }
    }
}

/// What the caller is to do next.
#[derive(Clone, Debug, PartialEq, Eq)]
pub enum SeedAction {
    /// Look for a record whose e-mail address equals this key, and answer
    /// `Found`, `Absent` or `LookupFailed`.
    Lookup(String),
    /// Insert this record, and answer `Inserted` or `InsertFailed`.
    Insert(User),
    /// Seeding is complete.
    Finish(SeedReport),
    /// Seeding failed. What was inserted before stays.
    Fail(SeedError),
}

pub enum SeedActionView {
    Lookup(Seq<char>),
    Insert(UserView),
    Finish(SeedReportView),
    Fail(SeedErrorView),
}

impl View for SeedAction {
    type V = SeedActionView;

    open spec fn view(&self) -> SeedActionView {
        match self {
            SeedAction::Lookup(key) => SeedActionView::Lookup(key@),
            SeedAction::Insert(user) => SeedActionView::Insert(user@),
            SeedAction::Finish(report) => SeedActionView::Finish(report@),
            SeedAction::Fail(error) => SeedActionView::Fail(error@),
        }
    }
}

/// The state of seeding one store.
#[derive(Debug)]
pub struct SeedSeeder {
    records: DefaultUsers,
    system_identity: RecordId,
    phase: SeedPhase,
    cursor: usize,
    minted_id: RecordId,
    minted_at: i64,
    inserted: Vec<String>,
    skipped: Vec<String>,
    cause: String,
}

pub struct SeedView {
    pub records: Seq<DefaultUserView>,
    /// The identity recorded as the writer of every seeded record.
    pub system_identity: RecordId,
    pub phase: SeedPhase,
    /// The index of the current record.
    pub cursor: nat,
    /// The identity and time under which the current record is inserted.
    pub minted_id: RecordId,
    pub minted_at: i64,
    /// The keys inserted and skipped so far.
    pub inserted: Seq<Seq<char>>,
    pub skipped: Seq<Seq<char>>,
    /// The reason of a failed insertion.
    pub cause: Seq<char>,
}

impl SeedView {
    pub open spec fn valid(self) -> bool {
        match self.phase {
            SeedPhase::Finished => self.cursor == self.records.len(),
            _ => self.cursor < self.records.len(),
        }
    }

    /// The state in which seeding starts.
    pub open spec fn initial(records: Seq<DefaultUserView>, system_identity: RecordId) -> SeedView {
        SeedView {
            records,
            system_identity,
            phase: if records.len() == 0 {
                SeedPhase::Finished
            } else {
                SeedPhase::Looking
            },
            cursor: 0,
            minted_id: system_identity,
            minted_at: 0,
            inserted: Seq::empty(),
            skipped: Seq::empty(),
            cause: Seq::empty(),
        }
    }

    /// The natural key of the current record.
    pub open spec fn current_key(self) -> Seq<char> {
        self.records[self.cursor as int].email
    }

    /// What the caller is to do in this state.
    pub open spec fn pending(self) -> SeedActionView {
        match self.phase {
            SeedPhase::Looking => SeedActionView::Lookup(self.current_key()),
            SeedPhase::Inserting => SeedActionView::Insert(
                seeded_record(
                    self.records[self.cursor as int],
                    self.minted_id,
                    self.system_identity,
                    self.minted_at,
                ),
            ),
            SeedPhase::Finished => SeedActionView::Finish(
                SeedReportView { inserted: self.inserted, skipped: self.skipped },
            ),
            SeedPhase::LookupFailed => SeedActionView::Fail(SeedErrorView::LookupFailed),
            SeedPhase::InsertFailed => SeedActionView::Fail(
                SeedErrorView::InsertFailed(self.current_key(), self.cause),
            ),
        }
    }

    /// The phase in which the record after the current one is met.
    pub open spec fn phase_after_current(self) -> SeedPhase {
        if self.cursor + 1 == self.records.len() {
            SeedPhase::Finished
        } else {
            SeedPhase::Looking
        }
    }

    /// The state after an answer of the store. An answer that the state did
    /// not ask for changes nothing.
    pub open spec fn after(self, event: SeedEventView) -> SeedView {
        match (self.phase, event) {
            (SeedPhase::Looking, SeedEventView::Found) => SeedView {
                phase: self.phase_after_current(),
                cursor: self.cursor + 1,
                skipped: self.skipped.push(self.current_key()),
                ..self
            },
            (SeedPhase::Looking, SeedEventView::Absent { id, now }) => SeedView {
                phase: SeedPhase::Inserting,
                minted_id: id,
                minted_at: now,
                ..self
            },
            (SeedPhase::Looking, SeedEventView::LookupFailed) => SeedView {
                phase: SeedPhase::LookupFailed,
                ..self
            },
            (SeedPhase::Inserting, SeedEventView::Inserted) => SeedView {
                phase: self.phase_after_current(),
                cursor: self.cursor + 1,
                inserted: self.inserted.push(self.current_key()),
                ..self
            },
            (SeedPhase::Inserting, SeedEventView::InsertFailed(cause)) => SeedView {
                phase: SeedPhase::InsertFailed,
                cause,
                ..self
            },
            _ => self,
        }
    }
}

impl View for SeedSeeder {
    type V = SeedView;

    closed spec fn view(&self) -> SeedView {
        SeedView {
            records: self.records@,
            system_identity: self.system_identity,
            phase: self.phase,
            cursor: self.cursor as nat,
            minted_id: self.minted_id,
            minted_at: self.minted_at,
            inserted: self.inserted.deep_view(),
            skipped: self.skipped.deep_view(),
            cause: self.cause@,
        }
    }
}

impl SeedSeeder {
    #[verifier::type_invariant]
    closed spec fn well_formed(self) -> bool {
        self@.valid()
    }

    /// Starts seeding the records, in their order. Every record inserted is
    /// attributed to `system_identity`.
    pub fn new(records: DefaultUsers, system_identity: RecordId) -> (seeder: SeedSeeder)
        ensures
            seeder@ == SeedView::initial(records@, system_identity),
            seeder@.valid(),
    {
        let phase = if records.users.len() == 0 {
            SeedPhase::Finished
        } else {
            SeedPhase::Looking
        };
        let inserted: Vec<String> = Vec::new();
        let skipped: Vec<String> = Vec::new();
        assert(inserted.deep_view() =~= Seq::<Seq<char>>::empty());
        assert(skipped.deep_view() =~= Seq::<Seq<char>>::empty());
        SeedSeeder {
            records,
            system_identity,
            phase,
            cursor: 0,
            minted_id: system_identity,
            minted_at: 0,
            inserted,
            skipped,
            cause: String::new(),
        }
    }

    /// Starts seeding with a system identity minted for the occasion: records
    /// seeded by different runs are then attributed to different identities.
    pub fn with_fresh_identity(records: DefaultUsers, engine: Engine) -> (seeder: SeedSeeder)
        ensures
            seeder@ == SeedView::initial(records@, seeder@.system_identity),
            seeder@.system_identity.engine_of() == engine,
            seeder@.valid(),
    {
        SeedSeeder::new(records, RecordId::mint(engine))
    }

    pub fn phase(&self) -> (phase: SeedPhase)
        ensures
            phase == self@.phase,
            self@.valid(),
    {
        proof {
            use_type_invariant(self);
        }
        self.phase
    }

    /// The keys inserted so far, in order: also after a failure.
    pub fn inserted(&self) -> (keys: Vec<String>)
        ensures
            keys.deep_view() == self@.inserted,
    {
        copy_names(&self.inserted)
    }

    /// What the caller is to do now.
    pub fn pending_action(&self) -> (action: SeedAction)
        ensures
            action@ == self@.pending(),
    {
        proof {
            use_type_invariant(self);
        }
        match self.phase {
            SeedPhase::Looking => SeedAction::Lookup(self.records.users[self.cursor].email.clone()),
            SeedPhase::Inserting => SeedAction::Insert(
                materialize(
                    &self.records.users[self.cursor],
                    self.minted_id,
                    self.system_identity,
                    self.minted_at,
                ),
            ),
            SeedPhase::Finished => SeedAction::Finish(
                SeedReport {
                    inserted: copy_names(&self.inserted),
                    skipped: copy_names(&self.skipped),
                },
            ),
            SeedPhase::LookupFailed => SeedAction::Fail(SeedError::LookupFailed),
            SeedPhase::InsertFailed => SeedAction::Fail(
                SeedError::InsertFailed(
                    self.records.users[self.cursor].email.clone(),
                    self.cause.clone(),
                ),
            ),
        }
    }

    /// Takes an answer of the store and gives the next state with what to
    /// do in it.
    pub fn step(self, event: SeedEvent) -> (next: (SeedSeeder, SeedAction))
        ensures
            next.0@ == self@.after(event@),
            next.0@.valid(),
            next.1@ == next.0@.pending(),
    {
        proof {
            use_type_invariant(&self);
        }
        let SeedSeeder {
            records,
            system_identity,
            phase,
            cursor,
            minted_id,
            minted_at,
            inserted,
            skipped,
            cause,
        } = self;
        let total = records.users.len();
        let state = match phase {
            SeedPhase::Looking => match event {
                SeedEvent::Found => {
                    let mut skipped = skipped;
                    let ghost before = skipped.deep_view();
                    let key = records.users[cursor].email.clone();
                    skipped.push(key);
                    assert(skipped.deep_view() =~= before.push(key@));
                    let cursor = cursor + 1;
                    let phase = if cursor == total {
                        SeedPhase::Finished
                    } else {
                        SeedPhase::Looking
                    };
                    SeedSeeder {
                        records,
                        system_identity,
                        phase,
                        cursor,
                        minted_id,
                        minted_at,
                        inserted,
                        skipped,
                        cause,
                    }
                },
                SeedEvent::Absent { id, now } => SeedSeeder {
                    records,
                    system_identity,
                    phase: SeedPhase::Inserting,
                    cursor,
                    minted_id: id,
                    minted_at: now,
                    inserted,
                    skipped,
                    cause,
                },
                SeedEvent::LookupFailed => SeedSeeder {
                    records,
                    system_identity,
                    phase: SeedPhase::LookupFailed,
                    cursor,
                    minted_id,
                    minted_at,
                    inserted,
                    skipped,
                    cause,
                },
                _ => SeedSeeder {
                    records,
                    system_identity,
                    phase,
                    cursor,
                    minted_id,
                    minted_at,
                    inserted,
                    skipped,
                    cause,
                },
            },
            SeedPhase::Inserting => match event {
                SeedEvent::Inserted => {
                    let mut inserted = inserted;
                    let ghost before = inserted.deep_view();
                    let key = records.users[cursor].email.clone();
                    inserted.push(key);
                    assert(inserted.deep_view() =~= before.push(key@));
                    let cursor = cursor + 1;
                    let phase = if cursor == total {
                        SeedPhase::Finished
                    } else {
                        SeedPhase::Looking
                    };
                    SeedSeeder {
                        records,
                        system_identity,
                        phase,
                        cursor,
                        minted_id,
                        minted_at,
                        inserted,
                        skipped,
                        cause,
                    }
                },
                SeedEvent::InsertFailed(reason) => SeedSeeder {
                    records,
                    system_identity,
                    phase: SeedPhase::InsertFailed,
                    cursor,
                    minted_id,
                    minted_at,
                    inserted,
                    skipped,
                    cause: reason,
                },
                _ => SeedSeeder {
                    records,
                    system_identity,
                    phase,
                    cursor,
                    minted_id,
                    minted_at,
                    inserted,
                    skipped,
                    cause,
                },
            },
            _ => SeedSeeder {
                records,
                system_identity,
                phase,
                cursor,
                minted_id,
                minted_at,
                inserted,
                skipped,
                cause,
            },
        };
        let action = state.pending_action();
        (state, action)
    }
}

} // verus!

use store_bootstrap::config::Engine;
use store_bootstrap::data::{DefaultUser, DefaultUsers};
use store_bootstrap::identity::RecordId;
use store_bootstrap::models::{Timestamps, User};
use store_bootstrap::seed::{
    absent_event, materialize, SeedAction, SeedError, SeedEvent, SeedPhase, SeedReport, SeedSeeder,
};

const SYSTEM: RecordId = RecordId::Document([9; 12]);

fn account(name: &str, email: &str) -> DefaultUser {
    DefaultUser {
        name: name.to_string(),
        email: email.to_string(),
        password: format!("{name}-secret"),
        role: "admin".to_string(),
    }
}

fn keys(items: &[&str]) -> Vec<String> {
    items.iter().map(|item| item.to_string()).collect()
}

/// Takes one answer of the store, in place.
fn advance(seeder: &mut SeedSeeder, event: SeedEvent) -> SeedAction {
    let state = std::mem::replace(seeder, SeedSeeder::new(DefaultUsers { users: vec![] }, SYSTEM));
    let (next, action) = state.step(event);
    *seeder = next;
    action
}

/// What a run against a store held in memory did.
struct Run {
    last: SeedAction,
    lookups: Vec<String>,
    attempts: Vec<String>,
    seeder: SeedSeeder,
}

/// Seeds the records into a store held in memory. Inserting the record
/// whose key is `refuse` fails.
fn seed_in_memory(store: &mut Vec<User>, records: &[DefaultUser], refuse: Option<&str>) -> Run {
    let mut seeder = SeedSeeder::new(DefaultUsers { users: records.to_vec() }, SYSTEM);
    let mut lookups = Vec::new();
    let mut attempts = Vec::new();
    let mut action = seeder.pending_action();
    let mut counter: u8 = 0;
    loop {
        let event = match &action {
            SeedAction::Lookup(key) => {
                lookups.push(key.clone());
                if store.iter().any(|user| &user.email == key) {
                    SeedEvent::Found
                } else {
                    counter += 1;
                    SeedEvent::Absent { id: RecordId::Document([counter; 12]), now: 1_000 }
                }
            }
            SeedAction::Insert(user) => {
                attempts.push(user.email.clone());
                if Some(user.email.as_str()) == refuse {
                    SeedEvent::InsertFailed("disk full".to_string())
                } else {
                    store.push(user.clone());
                    SeedEvent::Inserted
                }
            }
            _ => return Run { last: action, lookups, attempts, seeder },
        };
        action = advance(&mut seeder, event);
    }
}

#[test]
fn a_record_already_stored_is_skipped() {
    let stored = materialize(&account("Old Name", "a@x.com"), RecordId::Document([7; 12]), SYSTEM, 5);
    let mut store = vec![stored.clone()];
    let run = seed_in_memory(&mut store, &[account("New Name", "a@x.com")], None);
    assert_eq!(
        run.last,
        SeedAction::Finish(SeedReport { inserted: keys(&[]), skipped: keys(&["a@x.com"]) })
    );
    assert!(run.attempts.is_empty());
    assert_eq!(store, vec![stored]);
}

#[test]
fn absent_records_are_inserted_in_order() {
    let mut store = Vec::new();
    let records = [account("A", "a@x.com"), account("B", "b@x.com")];
    let run = seed_in_memory(&mut store, &records, None);
    assert_eq!(
        run.last,
        SeedAction::Finish(SeedReport { inserted: keys(&["a@x.com", "b@x.com"]), skipped: keys(&[]) })
    );
    assert_eq!(run.lookups, keys(&["a@x.com", "b@x.com"]));
    assert_eq!(store.len(), 2);
    assert_eq!(store[0].email, "a@x.com");
    assert_eq!(store[1].email, "b@x.com");
    assert_eq!(run.seeder.phase(), SeedPhase::Finished);
}

#[test]
fn seeding_twice_stores_one_record_per_key() {
    let mut store = Vec::new();
    let records = [account("A", "a@x.com"), account("B", "b@x.com"), account("A2", "a@x.com")];
    let first = seed_in_memory(&mut store, &records, None);
    assert_eq!(
        first.last,
        SeedAction::Finish(SeedReport {
            inserted: keys(&["a@x.com", "b@x.com"]),
            skipped: keys(&["a@x.com"]),
        })
    );
    let after_first = store.clone();
    let second = seed_in_memory(&mut store, &records, None);
    assert_eq!(
        second.last,
        SeedAction::Finish(SeedReport {
            inserted: keys(&[]),
            skipped: keys(&["a@x.com", "b@x.com", "a@x.com"]),
        })
    );
    assert!(second.attempts.is_empty());
    assert_eq!(store, after_first);
    assert_eq!(store.iter().filter(|user| user.email == "a@x.com").count(), 1);
    assert_eq!(store.iter().filter(|user| user.email == "b@x.com").count(), 1);
    assert_eq!(store[0].name, "A");
}

#[test]
fn a_failed_insertion_keeps_what_was_inserted_and_the_next_run_goes_on() {
    let mut store = Vec::new();
    let records = [account("A", "a@x.com"), account("B", "b@x.com"), account("C", "c@x.com")];
    let failed = seed_in_memory(&mut store, &records, Some("b@x.com"));
    assert_eq!(
        failed.last,
        SeedAction::Fail(SeedError::InsertFailed("b@x.com".to_string(), "disk full".to_string()))
    );
    assert_eq!(failed.seeder.phase(), SeedPhase::InsertFailed);
    assert_eq!(failed.seeder.inserted(), keys(&["a@x.com"]));
    assert_eq!(failed.lookups, keys(&["a@x.com", "b@x.com"]));
    assert_eq!(store.len(), 1);
    let stored_first = store[0].clone();

    let again = seed_in_memory(&mut store, &records, None);
    assert_eq!(again.attempts, keys(&["b@x.com", "c@x.com"]));
    assert_eq!(
        again.last,
        SeedAction::Finish(SeedReport {
            inserted: keys(&["b@x.com", "c@x.com"]),
            skipped: keys(&["a@x.com"]),
        })
    );
    assert_eq!(store.len(), 3);
    assert_eq!(store[0], stored_first);
}

#[test]
fn a_failed_lookup_fails_seeding() {
    let mut seeder = SeedSeeder::new(DefaultUsers { users: vec![account("A", "a@x.com")] }, SYSTEM);
    assert_eq!(seeder.pending_action(), SeedAction::Lookup("a@x.com".to_string()));
    let action = advance(&mut seeder, SeedEvent::LookupFailed);
    assert_eq!(action, SeedAction::Fail(SeedError::LookupFailed));
    assert_eq!(seeder.phase(), SeedPhase::LookupFailed);
    assert_eq!(advance(&mut seeder, SeedEvent::Found), SeedAction::Fail(SeedError::LookupFailed));
}

#[test]
fn no_records_finish_at_once() {
    let seeder = SeedSeeder::new(DefaultUsers { users: vec![] }, SYSTEM);
    assert_eq!(
        seeder.pending_action(),
        SeedAction::Finish(SeedReport { inserted: keys(&[]), skipped: keys(&[]) })
    );
}

#[test]
fn the_stored_record_keeps_the_fields_and_the_envelope() {
    let record = DefaultUser {
        name: "Admin".to_string(),
        email: "admin@example.com".to_string(),
        password: "plain".to_string(),
        role: "admin".to_string(),
    };
    let id = RecordId::Document([1, 2, 3, 4, 5, 6, 7, 8, 9, 10, 11, 12]);
    let user = materialize(&record, id, SYSTEM, 1_700_000_000_123);
    assert_eq!(
        user,
        User {
            id,
            name: "Admin".to_string(),
            email: "admin@example.com".to_string(),
            password: "plain".to_string(),
            role: "admin".to_string(),
            timestamps: Timestamps {
                created_at: 1_700_000_000_123,
                created_by: SYSTEM,
                updated_at: 1_700_000_000_123,
                updated_by: SYSTEM,
            },
        }
    );
}

#[test]
fn the_insert_action_carries_the_minted_identity() {
    let mut seeder = SeedSeeder::new(DefaultUsers { users: vec![account("A", "a@x.com")] }, SYSTEM);
    let id = RecordId::Document([3; 12]);
    let action = advance(&mut seeder, SeedEvent::Absent { id, now: 42 });
    assert_eq!(action, SeedAction::Insert(materialize(&account("A", "a@x.com"), id, SYSTEM, 42)));
    assert_eq!(seeder.phase(), SeedPhase::Inserting);
    assert_eq!(advance(&mut seeder, SeedEvent::Found), action);
    assert_eq!(seeder.pending_action(), action);
}

#[test]
fn an_absent_answer_is_minted_for_the_engine() {
    match absent_event(Engine::Document) {
        SeedEvent::Absent { id, now } => {
            assert_eq!(id.engine(), Engine::Document);
            assert!(now > 1_600_000_000_000);
        }
        other => panic!("unexpected answer {other:?}"),
    }
    match absent_event(Engine::Relational) {
        SeedEvent::Absent { id, .. } => assert_eq!(id.engine(), Engine::Relational),
        other => panic!("unexpected answer {other:?}"),
    }
}

#[test]
fn minted_identities_differ() {
    assert_ne!(RecordId::mint(Engine::Document), RecordId::mint(Engine::Document));
    assert_ne!(RecordId::mint(Engine::Relational), RecordId::mint(Engine::Relational));
    match RecordId::mint(Engine::Relational) {
        RecordId::Relational(value) => assert_eq!((value >> 76) & 0xf, 4),
        other => panic!("unexpected identity {other:?}"),
    }
}

#[test]
fn a_fresh_system_identity_signs_every_record_of_the_run() {
    let records = DefaultUsers { users: vec![account("A", "a@x.com"), account("B", "b@x.com")] };
    let mut seeder = SeedSeeder::with_fresh_identity(records, Engine::Document);
    let mut writers = Vec::new();
    for round in 0..2u8 {
        let action = advance(&mut seeder, SeedEvent::Absent { id: RecordId::Document([round; 12]), now: 7 });
        match action {
            SeedAction::Insert(user) => {
                assert_eq!(user.timestamps.created_by, user.timestamps.updated_by);
                assert_eq!(user.timestamps.created_at, user.timestamps.updated_at);
                assert_eq!(user.timestamps.created_by.engine(), Engine::Document);
                writers.push(user.timestamps.created_by);
            }
            other => panic!("unexpected action {other:?}"),
        }
        advance(&mut seeder, SeedEvent::Inserted);
    }
    assert_eq!(writers[0], writers[1]);
}

//! A model of the seeded store, and what seeding guarantees of it: no
//! duplicates, no change to what is stored, and a failed run that can be
//! taken up again.

use vstd::prelude::*;
use crate::data::DefaultUserView;
use crate::identity::RecordId;
use crate::models::UserView;
use crate::seed::{
    SeedActionView, SeedErrorView, SeedEventView, SeedPhase, SeedReportView, SeedView,
};

verus! {

/// Whether the store holds a record with this natural key.
pub open spec fn has_key(store: Seq<DefaultUserView>, key: Seq<char>) -> bool {
    exists|i: int| 0 <= i < store.len() && (#[trigger] store[i]).email == key
}

/// No two stored records share a natural key.
pub open spec fn distinct_keys(store: Seq<DefaultUserView>) -> bool {
    forall|i: int, j: int|
        0 <= i < j < store.len() ==> (#[trigger] store[i]).email != (#[trigger] store[j]).email
}

/// A store after seeding, with the keys inserted and skipped on the way.
pub struct SeedOutcome {
    pub store: Seq<DefaultUserView>,
    pub inserted: Seq<Seq<char>>,
    pub skipped: Seq<Seq<char>>,
}

/// Seeding in full: each record, in order, is appended to the store unless a
/// record with its key is there by then.
pub open spec fn seed_model(
    store: Seq<DefaultUserView>,
    records: Seq<DefaultUserView>,
) -> SeedOutcome
    decreases records.len(),
{
    if records.len() == 0 {
        SeedOutcome { store, inserted: Seq::empty(), skipped: Seq::empty() }
    } else {
        let earlier = seed_model(store, records.drop_last());
        let record = records.last();
        if has_key(earlier.store, record.email) {
            SeedOutcome { skipped: earlier.skipped.push(record.email), ..earlier }
        } else {
            SeedOutcome {
                store: earlier.store.push(record),
                inserted: earlier.inserted.push(record.email),
                skipped: earlier.skipped,
            }
        }
    }
}

/// Seeding leaves every stored record where and as it was.
pub proof fn lemma_seed_keeps_store(store: Seq<DefaultUserView>, records: Seq<DefaultUserView>)
    ensures
        store.len() <= seed_model(store, records).store.len(),
        forall|i: int|
            0 <= i < store.len() ==> (#[trigger] seed_model(store, records).store[i]) == store[i],
    decreases records.len(),
{
    if records.len() > 0 {
        lemma_seed_keeps_store(store, records.drop_last());
    }
}

/// After seeding, the store holds a record for the key of every record given.
pub proof fn lemma_seed_covers_keys(store: Seq<DefaultUserView>, records: Seq<DefaultUserView>)
    ensures
        forall|i: int|
            0 <= i < records.len() ==> has_key(
                seed_model(store, records).store,
                (#[trigger] records[i]).email,
            ),
    decreases records.len(),
{
    if records.len() > 0 {
        let front = records.drop_last();
        let earlier = seed_model(store, front);
        let after = seed_model(store, records).store;
        let record = records.last();
        lemma_seed_covers_keys(store, front);
        assert forall|i: int| 0 <= i < records.len() implies has_key(
            after,
            (#[trigger] records[i]).email,
        ) by {
            if i < front.len() {
                assert(has_key(earlier.store, front[i].email));
                let k = choose|k: int|
                    0 <= k < earlier.store.len() && (#[trigger] earlier.store[k]).email
                        == front[i].email;
                assert(after[k].email == records[i].email);
            } else if has_key(earlier.store, record.email) {
            } else {
                assert(after[after.len() - 1].email == record.email);
            }
        }
    }
}

/// Seeding a store that holds every key given inserts nothing and leaves the
/// store as it is.
pub proof fn lemma_seed_saturated(store: Seq<DefaultUserView>, records: Seq<DefaultUserView>)
    requires
        forall|i: int| 0 <= i < records.len() ==> has_key(store, (#[trigger] records[i]).email),
    ensures
        seed_model(store, records).store == store,
        seed_model(store, records).inserted == Seq::<Seq<char>>::empty(),
    decreases records.len(),
{
    if records.len() > 0 {
        let front = records.drop_last();
        assert forall|i: int| 0 <= i < front.len() implies has_key(
            store,
            (#[trigger] front[i]).email,
        ) by {
            assert(front[i] == records[i]);
        }
        lemma_seed_saturated(store, front);
        assert(records.last() == records[records.len() - 1]);
    }
}

/// Seeding twice leaves the store as seeding once does: the second run
/// inserts nothing and changes no stored record.
pub proof fn lemma_seed_idempotent(store: Seq<DefaultUserView>, records: Seq<DefaultUserView>)
    ensures
        seed_model(seed_model(store, records).store, records).store == seed_model(
            store,
            records,
        ).store,
        seed_model(seed_model(store, records).store, records).inserted == Seq::<
            Seq<char>,
        >::empty(),
{
    lemma_seed_covers_keys(store, records);
    lemma_seed_saturated(seed_model(store, records).store, records);
}

/// Seeding a store without duplicate keys yields a store without duplicate
/// keys: together with `lemma_seed_covers_keys`, exactly one record for each
/// key given.
pub proof fn lemma_seed_keys_distinct(store: Seq<DefaultUserView>, records: Seq<DefaultUserView>)
    requires
        distinct_keys(store),
    ensures
        distinct_keys(seed_model(store, records).store),
    decreases records.len(),
{
    if records.len() > 0 {
        lemma_seed_keys_distinct(store, records.drop_last());
    }
}

/// Exactly one stored record has this natural key.
pub open spec fn holds_once(store: Seq<DefaultUserView>, key: Seq<char>) -> bool {
    exists|k: int|
        0 <= k < store.len() && (#[trigger] store[k]).email == key && forall|j: int|
            0 <= j < store.len() && j != k ==> (#[trigger] store[j]).email != key
}

/// After seeding a store without duplicate keys, exactly one stored record
/// has the key of each record given.
pub proof fn lemma_seed_one_record_per_key(
    store: Seq<DefaultUserView>,
    records: Seq<DefaultUserView>,
    i: int,
)
    requires
        distinct_keys(store),
        0 <= i < records.len(),
    ensures
        holds_once(seed_model(store, records).store, records[i].email),
{
    let after = seed_model(store, records).store;
    let key = records[i].email;
    lemma_seed_covers_keys(store, records);
    lemma_seed_keys_distinct(store, records);
    assert(has_key(after, key));
    let k = choose|k: int| 0 <= k < after.len() && (#[trigger] after[k]).email == key;
    assert forall|j: int| 0 <= j < after.len() && j != k implies (#[trigger] after[j]).email
        != key by {
        if j < k {
            assert(after[j].email != after[k].email);
        } else {
            assert(after[k].email != after[j].email);
        }
    }
}

/// Seeding a list in two parts, one after the other, is seeding the list.
pub proof fn lemma_seed_in_parts(
    store: Seq<DefaultUserView>,
    first: Seq<DefaultUserView>,
    second: Seq<DefaultUserView>,
)
    ensures
        seed_model(store, first + second).store == seed_model(
            seed_model(store, first).store,
            second,
        ).store,
        seed_model(store, first + second).inserted == seed_model(store, first).inserted
            + seed_model(seed_model(store, first).store, second).inserted,
        seed_model(store, first + second).skipped == seed_model(store, first).skipped
            + seed_model(seed_model(store, first).store, second).skipped,
    decreases second.len(),
{
    let begun = seed_model(store, first);
    if second.len() == 0 {
        assert(first + second =~= first);
        assert(begun.inserted + Seq::<Seq<char>>::empty() =~= begun.inserted);
        assert(begun.skipped + Seq::<Seq<char>>::empty() =~= begun.skipped);
    } else {
        let front = second.drop_last();
        lemma_seed_in_parts(store, first, front);
        assert((first + second).drop_last() =~= first + front);
        assert((first + second).last() == second.last());
        let rest = seed_model(begun.store, front);
        let key = second.last().email;
        assert(begun.inserted + rest.inserted.push(key) =~= (begun.inserted + rest.inserted).push(
            key,
        ));
        assert(begun.skipped + rest.skipped.push(key) =~= (begun.skipped + rest.skipped).push(key));
    }
}

/// A run that stopped after `done` records can be taken up again from the
/// start: the records seeded before are still there, the new run inserts none
/// of them a second time, inserts exactly what seeding the remaining records
/// inserts, and ends with the store that one full run gives.
pub proof fn lemma_seed_resumes(
    store: Seq<DefaultUserView>,
    records: Seq<DefaultUserView>,
    done: nat,
)
    requires
        done <= records.len(),
    ensures
        forall|i: int|
            0 <= i < done ==> has_key(
                seed_model(store, records.take(done as int)).store,
                (#[trigger] records[i]).email,
            ),
        seed_model(seed_model(store, records.take(done as int)).store, records).store
            == seed_model(store, records).store,
        seed_model(seed_model(store, records.take(done as int)).store, records).inserted
            == seed_model(
            seed_model(store, records.take(done as int)).store,
            records.skip(done as int),
        ).inserted,
{
    let head = records.take(done as int);
    let tail = records.skip(done as int);
    let partial = seed_model(store, head).store;
    assert(head + tail =~= records);
    lemma_seed_covers_keys(store, head);
    assert forall|i: int| 0 <= i < done implies has_key(partial, (#[trigger] records[i]).email) by {
        assert(head[i] == records[i]);
    }
    lemma_seed_saturated(partial, head);
    lemma_seed_in_parts(store, head, tail);
    lemma_seed_in_parts(partial, head, tail);
    assert(Seq::<Seq<char>>::empty() + seed_model(partial, tail).inserted =~= seed_model(
        partial,
        tail,
    ).inserted);
}

/// The four fields of a stored record that seeding gave it.
pub open spec fn fields_of(user: UserView) -> DefaultUserView {
    DefaultUserView {
        name: user.name,
        email: user.email,
        password: user.password,
        role: user.role,
    }
}

/// One record's turn against a store that answers truthfully and inserts
/// what it is asked to: the state and the store afterwards.
pub open spec fn truthful_round(
    state: SeedView,
    store: Seq<DefaultUserView>,
    id: RecordId,
    now: i64,
) -> (SeedView, Seq<DefaultUserView>) {
    if has_key(store, state.current_key()) {
        (state.after(SeedEventView::Found), store)
    } else {
        let asked = state.after(SeedEventView::Absent { id, now });
        match asked.pending() {
            SeedActionView::Insert(user) => (
                asked.after(SeedEventView::Inserted),
                store.push(fields_of(user)),
            ),
            _ => (asked, store),
        }
    }
}

/// The first `rounds` records' turns from the start, with the identity and
/// time of each round given by `mint`.
pub open spec fn truthful_run(
    records: Seq<DefaultUserView>,
    system: RecordId,
    store: Seq<DefaultUserView>,
    mint: spec_fn(nat) -> (RecordId, i64),
    rounds: nat,
) -> (SeedView, Seq<DefaultUserView>)
    decreases rounds,
{
    if rounds == 0 {
        (SeedView::initial(records, system), store)
    } else {
        let before = truthful_run(records, system, store, mint, (rounds - 1) as nat);
        let minted = mint((rounds - 1) as nat);
        truthful_round(before.0, before.1, minted.0, minted.1)
    }
}

/// Against a store that answers truthfully, the seeder does what the model
/// says, whatever identities and times are minted: after each record's turn
/// the store, the keys inserted and the keys skipped are the model's for the
/// records so far, and after the last one the seeder finishes with that
/// report.
pub proof fn lemma_run_follows_model(
    records: Seq<DefaultUserView>,
    system: RecordId,
    store: Seq<DefaultUserView>,
    mint: spec_fn(nat) -> (RecordId, i64),
    rounds: nat,
)
    requires
        rounds <= records.len(),
    ensures
        ({
            let (state, after) = truthful_run(records, system, store, mint, rounds);
            let model = seed_model(store, records.take(rounds as int));
            &&& state.valid()
            &&& state.records == records
            &&& state.system_identity == system
            &&& state.cursor == rounds
            &&& rounds < records.len() ==> state.phase == SeedPhase::Looking
            &&& after == model.store
            &&& state.inserted == model.inserted
            &&& state.skipped == model.skipped
            &&& rounds == records.len() ==> state.pending() == SeedActionView::Finish(
                SeedReportView { inserted: model.inserted, skipped: model.skipped },
            )
        }),
    decreases rounds,
{
    if rounds == 0 {
        assert(records.take(0).len() == 0);
    } else {
        lemma_run_follows_model(records, system, store, mint, (rounds - 1) as nat);
        let head = records.take(rounds as int);
        assert(head.drop_last() =~= records.take(rounds - 1));
        assert(head.last() == records[rounds - 1]);
    }
}

/// An insertion that fails after `rounds` records' turns fails the run with
/// the key of the record at hand and the cause, and takes nothing back: the
/// store and the keys inserted are the model's for the records before it.
pub proof fn lemma_failed_insertion_keeps_progress(
    records: Seq<DefaultUserView>,
    system: RecordId,
    store: Seq<DefaultUserView>,
    mint: spec_fn(nat) -> (RecordId, i64),
    rounds: nat,
    cause: Seq<char>,
)
    requires
        rounds < records.len(),
        !has_key(seed_model(store, records.take(rounds as int)).store, records[rounds as int].email),
    ensures
        ({
            let (state, after) = truthful_run(records, system, store, mint, rounds);
            let minted = mint(rounds);
            let failed = state.after(SeedEventView::Absent { id: minted.0, now: minted.1 }).after(
                SeedEventView::InsertFailed(cause),
            );
            &&& failed.valid()
            &&& failed.pending() == SeedActionView::Fail(
                SeedErrorView::InsertFailed(records[rounds as int].email, cause),
            )
            &&& failed.inserted == seed_model(store, records.take(rounds as int)).inserted
            &&& after == seed_model(store, records.take(rounds as int)).store
        }),
{
    lemma_run_follows_model(records, system, store, mint, rounds);
}

} // verus!

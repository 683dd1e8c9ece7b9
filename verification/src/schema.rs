//! Ensuring that a store holds its declared schema objects: which ones are
//! missing, and the sequence of store operations that creates them.

use vstd::prelude::*;
use crate::names::{contains_name, copy_names};

verus! {

/// The declared names that the store lacks, each once, in declared order.
pub open spec fn missing_names(declared: Seq<Seq<char>>, existing: Set<Seq<char>>) -> Seq<
    Seq<char>,
>
    decreases declared.len(),
{
    if declared.len() == 0 {
        Seq::empty()
    } else {
        let earlier = missing_names(declared.drop_last(), existing);
        let name = declared.last();
        if existing.contains(name) || earlier.contains(name) {
            earlier
        } else {
            earlier.push(name)
        }
    }
}

/// The declared names that the store already holds, in declared order.
pub open spec fn present_names(declared: Seq<Seq<char>>, existing: Set<Seq<char>>) -> Seq<
    Seq<char>,
>
    decreases declared.len(),
{
    if declared.len() == 0 {
        Seq::empty()
    } else {
        let earlier = present_names(declared.drop_last(), existing);
        let name = declared.last();
        if existing.contains(name) {
            earlier.push(name)
        } else {
            earlier
        }
    }
}

/// The objects of a store after every missing declared name was created.
pub open spec fn store_after_ensure(existing: Set<Seq<char>>, declared: Seq<Seq<char>>) -> Set<
    Seq<char>,
> {
    existing.union(missing_names(declared, existing).to_set())
}

/// Splits the declared names into those to create and those already there.
pub fn plan_objects(declared: &Vec<String>, existing: &Vec<String>) -> (plan: (
    Vec<String>,
    Vec<String>,
))
    ensures
        plan.0.deep_view() == missing_names(
            declared.deep_view(),
            existing.deep_view().to_set(),
        ),
        plan.1.deep_view() == present_names(
            declared.deep_view(),
            existing.deep_view().to_set(),
        ),
{
    let ghost d = declared.deep_view();
    let ghost e = existing.deep_view().to_set();
    let mut missing: Vec<String> = Vec::new();
    let mut present: Vec<String> = Vec::new();
    let mut i: usize = 0;
    assert(missing.deep_view() =~= Seq::<Seq<char>>::empty());
    assert(present.deep_view() =~= Seq::<Seq<char>>::empty());
    while i < declared.len()
        invariant
            i <= declared.len(),
            d == declared.deep_view(),
            e == existing.deep_view().to_set(),
            missing.deep_view() == missing_names(d.take(i as int), e),
            present.deep_view() == present_names(d.take(i as int), e),
        decreases declared.len() - i,
    {
        let name = &declared[i];
        proof {
            assert(d.take(i as int + 1).drop_last() =~= d.take(i as int));
            assert(d.take(i as int + 1).last() == name@);
        }
        if contains_name(existing, name) {
            let ghost before = present.deep_view();
            present.push(name.clone());
            assert(present.deep_view() =~= before.push(name@));
        } else if !contains_name(&missing, name) {
            let ghost before = missing.deep_view();
            missing.push(name.clone());
            assert(missing.deep_view() =~= before.push(name@));
        }
        i += 1;
    }
    assert(d.take(declared.len() as int) =~= d);
    (missing, present)
}

/// A name is to be created exactly when it is declared and not in the store.
pub proof fn lemma_missing_names_members(
    declared: Seq<Seq<char>>,
    existing: Set<Seq<char>>,
    name: Seq<char>,
)
    ensures
        missing_names(declared, existing).contains(name) <==> declared.contains(name)
            && !existing.contains(name),
    decreases declared.len(),
{
    if declared.len() > 0 {
        let front = declared.drop_last();
        lemma_missing_names_members(front, existing, name);
        let earlier = missing_names(front, existing);
        let last = declared.last();
        assert(declared =~= front.push(last));
        if declared.contains(name) {
            let k = choose|k: int| 0 <= k < declared.len() && declared[k] == name;
            if k < front.len() {
                assert(front[k] == name);
            }
        }
        if front.contains(name) {
            let k = choose|k: int| 0 <= k < front.len() && front[k] == name;
            assert(declared[k] == name);
        }
        assert(declared[declared.len() - 1] == last);
        if !(existing.contains(last) || earlier.contains(last)) {
            let grown = earlier.push(last);
            assert(grown[grown.len() - 1] == last);
            if grown.contains(name) {
                let k = choose|k: int| 0 <= k < grown.len() && grown[k] == name;
                if k < earlier.len() {
                    assert(earlier[k] == name);
                }
            }
            if earlier.contains(name) {
                let k = choose|k: int| 0 <= k < earlier.len() && earlier[k] == name;
                assert(grown[k] == name);
            }
        }
    }
}

/// No name is created twice.
pub proof fn lemma_missing_names_distinct(declared: Seq<Seq<char>>, existing: Set<Seq<char>>)
    ensures
        missing_names(declared, existing).no_duplicates(),
    decreases declared.len(),
{
    if declared.len() > 0 {
        lemma_missing_names_distinct(declared.drop_last(), existing);
    }
}

/// Nothing is created in a store that holds every declared name.
pub proof fn lemma_nothing_missing(declared: Seq<Seq<char>>, existing: Set<Seq<char>>)
    requires
        forall|name: Seq<char>| declared.contains(name) ==> existing.contains(name),
    ensures
        missing_names(declared, existing) == Seq::<Seq<char>>::empty(),
    decreases declared.len(),
{
    if declared.len() > 0 {
        let front = declared.drop_last();
        assert forall|name: Seq<char>| front.contains(name) implies existing.contains(name) by {
            let k = choose|k: int| 0 <= k < front.len() && front[k] == name;
            assert(declared[k] == name);
        }
        lemma_nothing_missing(front, existing);
        assert(declared[declared.len() - 1] == declared.last());
    }
}

/// After ensuring, the store holds every declared name and everything it
/// held before, and nothing else.
pub proof fn lemma_ensure_superset(existing: Set<Seq<char>>, declared: Seq<Seq<char>>)
    ensures
        forall|name: Seq<char>|
            store_after_ensure(existing, declared).contains(name) <==> existing.contains(name)
                || declared.contains(name),
{
    assert forall|name: Seq<char>|
        store_after_ensure(existing, declared).contains(name) <==> existing.contains(name)
            || declared.contains(name) by {
        lemma_missing_names_members(declared, existing, name);
    }
}

/// Ensuring twice in succession leaves the store as ensuring once does, and
/// the second time nothing is created.
pub proof fn lemma_ensure_idempotent(existing: Set<Seq<char>>, declared: Seq<Seq<char>>)
    ensures
        missing_names(declared, store_after_ensure(existing, declared)) == Seq::<
            Seq<char>,
        >::empty(),
        store_after_ensure(store_after_ensure(existing, declared), declared)
            == store_after_ensure(existing, declared),
{
    let once = store_after_ensure(existing, declared);
    lemma_ensure_superset(existing, declared);
    lemma_nothing_missing(declared, once);
    assert(store_after_ensure(once, declared) =~= once);
}

/// Where ensuring stands.
#[derive(Clone, Copy, Debug, PartialEq, Eq, Structural)]
pub enum EnsurePhase {
    /// The store's objects have been asked for.
    Listing,
    /// The next missing object is being created.
    Creating,
    /// Every missing object was created.
    Finished,
    /// The store's objects could not be listed.
    ListFailed,
    /// An object could not be created; the rest was not tried.
    CreateFailed,
}

/// What the store answered.
#[derive(Clone, Debug, PartialEq, Eq)]
pub enum SchemaEvent {
    /// The names of the objects that the store holds.
    Listed(Vec<String>),
    /// Listing failed, for this reason.
    ListFailed(String),
    /// The object asked for was created.
    Created,
    /// Creating the object asked for failed, for this reason.
    CreateFailed(String),
}

pub enum SchemaEventView {
    Listed(Seq<Seq<char>>),
    ListFailed(Seq<char>),
    Created,
    CreateFailed(Seq<char>),
}

impl View for SchemaEvent {
    type V = SchemaEventView;

    open spec fn view(&self) -> SchemaEventView {
        match self {
            SchemaEvent::Listed(names) => SchemaEventView::Listed(names.deep_view()),
            SchemaEvent::ListFailed(cause) => SchemaEventView::ListFailed(cause@),
            SchemaEvent::Created => SchemaEventView::Created,
            SchemaEvent::CreateFailed(cause) => SchemaEventView::CreateFailed(cause@),
        }
    }
}

/// What ensuring did: the objects it created, in order, and the declared
/// objects it found in place and left alone.
#[derive(Clone, Debug, PartialEq, Eq)]
pub struct CreatedObjects {
    pub created: Vec<String>,
    pub already_present: Vec<String>,
}

pub struct CreatedObjectsView {
    pub created: Seq<Seq<char>>,
    pub already_present: Seq<Seq<char>>,
}

impl View for CreatedObjects {
    type V = CreatedObjectsView;

    open spec fn view(&self) -> CreatedObjectsView {
        CreatedObjectsView {
            created: self.created.deep_view(),
            already_present: self.already_present.deep_view(),
        }
    }
}

/// Why ensuring failed.
#[derive(Clone, Debug, PartialEq, Eq)]
pub enum SchemaError {
    /// The store's objects could not be listed; the cause.
    ListFailed(String),
    /// The named object could not be created; the name and the cause.
    CreateFailed(String, String),
}

pub enum SchemaErrorView {
    ListFailed(Seq<char>),
    CreateFailed(Seq<char>, Seq<char>),
}

impl View for SchemaError {
    type V = SchemaErrorView;

    open spec fn view(&self) -> SchemaErrorView {
        match self {
            SchemaError::ListFailed(cause) => SchemaErrorView::ListFailed(cause@),
            SchemaError::CreateFailed(name, cause) => SchemaErrorView::CreateFailed(
                name@,
                cause@,
            ),
        }
    }
}

/// What the caller is to do next.
#[derive(Clone, Debug, PartialEq, Eq)]
pub enum SchemaAction {
    /// List the store's objects and answer `Listed` or `ListFailed`.
    ListObjects,
    /// Create the named object and answer `Created` or `CreateFailed`.
    CreateObject(String),
    /// Ensuring is complete.
    Finish(CreatedObjects),
    /// Ensuring failed; the store must not be seeded.
    Fail(SchemaError),
}

pub enum SchemaActionView {
    ListObjects,
    CreateObject(Seq<char>),
    Finish(CreatedObjectsView),
    Fail(SchemaErrorView),
}

impl View for SchemaAction {
    type V = SchemaActionView;

    open spec fn view(&self) -> SchemaActionView {
        match self {
            SchemaAction::ListObjects => SchemaActionView::ListObjects,
            SchemaAction::CreateObject(name) => SchemaActionView::CreateObject(name@),
            SchemaAction::Finish(report) => SchemaActionView::Finish(report@),
            SchemaAction::Fail(error) => SchemaActionView::Fail(error@),
        }
    }
}

/// The state of ensuring one store's schema.
#[derive(Debug)]
pub struct SchemaEnsurer {
    declared: Vec<String>,
    phase: EnsurePhase,
    queue: Vec<String>,
    present: Vec<String>,
    done: usize,
    cause: String,
}

pub struct EnsurerView {
    pub declared: Seq<Seq<char>>,
    pub phase: EnsurePhase,
    /// The names to create, in order.
    pub queue: Seq<Seq<char>>,
    /// The declared names found in place.
    pub present: Seq<Seq<char>>,
    /// How many names of the queue were created.
    pub done: nat,
    /// The reason of a failure.
    pub cause: Seq<char>,
}

impl EnsurerView {
    pub open spec fn valid(self) -> bool {
        match self.phase {
            EnsurePhase::Listing | EnsurePhase::ListFailed => self.queue.len() == 0 && self.done
                == 0,
            EnsurePhase::Creating | EnsurePhase::CreateFailed => self.done < self.queue.len(),
            EnsurePhase::Finished => self.done == self.queue.len(),
        }
    }

    /// The state in which ensuring starts.
    pub open spec fn initial(declared: Seq<Seq<char>>) -> EnsurerView {
        EnsurerView {
            declared,
            phase: EnsurePhase::Listing,
            queue: Seq::empty(),
            present: Seq::empty(),
            done: 0,
            cause: Seq::empty(),
        }
    }

    /// The names created so far.
    pub open spec fn created(self) -> Seq<Seq<char>> {
        self.queue.take(self.done as int)
    }

    /// What the caller is to do in this state.
    pub open spec fn pending(self) -> SchemaActionView {
        match self.phase {
            EnsurePhase::Listing => SchemaActionView::ListObjects,
            EnsurePhase::Creating => SchemaActionView::CreateObject(self.queue[self.done as int]),
            EnsurePhase::Finished => SchemaActionView::Finish(
                CreatedObjectsView { created: self.queue, already_present: self.present },
            ),
            EnsurePhase::ListFailed => SchemaActionView::Fail(
                SchemaErrorView::ListFailed(self.cause),
            ),
            EnsurePhase::CreateFailed => SchemaActionView::Fail(
                SchemaErrorView::CreateFailed(self.queue[self.done as int], self.cause),
            ),
        }
    }

    /// The state after an answer of the store. An answer that the state did
    /// not ask for changes nothing.
    pub open spec fn after(self, event: SchemaEventView) -> EnsurerView {
        match (self.phase, event) {
            (EnsurePhase::Listing, SchemaEventView::Listed(existing)) => {
                let queue = missing_names(self.declared, existing.to_set());
                EnsurerView {
                    phase: if queue.len() == 0 {
                        EnsurePhase::Finished
                    } else {
                        EnsurePhase::Creating
                    },
                    queue,
                    present: present_names(self.declared, existing.to_set()),
                    done: 0,
                    ..self
                }
            },
            (EnsurePhase::Listing, SchemaEventView::ListFailed(cause)) => EnsurerView {
                phase: EnsurePhase::ListFailed,
                cause,
                ..self
            },
            (EnsurePhase::Creating, SchemaEventView::Created) => EnsurerView {
                phase: if self.done + 1 == self.queue.len() {
                    EnsurePhase::Finished
                } else {
                    EnsurePhase::Creating
                },
                done: self.done + 1,
                ..self
            },
            (EnsurePhase::Creating, SchemaEventView::CreateFailed(cause)) => EnsurerView {
                phase: EnsurePhase::CreateFailed,
                cause,
                ..self
            },
            _ => self,
        }
    }
}

impl View for SchemaEnsurer {
    type V = EnsurerView;

    closed spec fn view(&self) -> EnsurerView {
        EnsurerView {
            declared: self.declared.deep_view(),
            phase: self.phase,
            queue: self.queue.deep_view(),
            present: self.present.deep_view(),
            done: self.done as nat,
            cause: self.cause@,
        }
    }
}

impl SchemaEnsurer {
    #[verifier::type_invariant]
    closed spec fn well_formed(self) -> bool {
        self@.valid()
    }

    /// Starts ensuring the declared names; the first action is to list the
    /// store's objects.
    pub fn new(declared: Vec<String>) -> (ensurer: SchemaEnsurer)
        ensures
            ensurer@ == EnsurerView::initial(declared.deep_view()),
            ensurer@.valid(),
    {
        let queue: Vec<String> = Vec::new();
        let present: Vec<String> = Vec::new();
        assert(queue.deep_view() =~= Seq::<Seq<char>>::empty());
        assert(present.deep_view() =~= Seq::<Seq<char>>::empty());
        SchemaEnsurer {
            declared,
            phase: EnsurePhase::Listing,
            queue,
            present,
            done: 0,
            cause: String::new(),
        }
    }

    pub fn phase(&self) -> (phase: EnsurePhase)
        ensures
            phase == self@.phase,
            self@.valid(),
    {
        proof {
            use_type_invariant(self);
        }
        self.phase
    }

    /// The names created so far, in order: also after a failure.
    pub fn created(&self) -> (names: Vec<String>)
        ensures
            names.deep_view() == self@.created(),
    {
        proof {
            use_type_invariant(self);
        }
        let mut names: Vec<String> = Vec::new();
        let mut i: usize = 0;
        assert(names.deep_view() =~= self.queue.deep_view().take(0));
        assert(self.queue.deep_view().len() == self.queue.len());
        while i < self.done
            invariant
                i <= self.done <= self.queue.len(),
                names.deep_view() == self.queue.deep_view().take(i as int),
            decreases self.done - i,
        {
            let ghost before = names.deep_view();
            names.push(self.queue[i].clone());
            proof {
                assert(names.deep_view() =~= before.push(self.queue@[i as int]@));
                assert(self.queue.deep_view().take(i as int + 1) =~= before.push(
                    self.queue@[i as int]@,
                ));
            }
            i += 1;
        }
        names
    }

    /// What the caller is to do now.
    pub fn pending_action(&self) -> (action: SchemaAction)
        ensures
            action@ == self@.pending(),
    {
        proof {
            use_type_invariant(self);
        }
        assert(self.queue.deep_view().len() == self.queue.len());
        match self.phase {
            EnsurePhase::Listing => SchemaAction::ListObjects,
            EnsurePhase::Creating => SchemaAction::CreateObject(self.queue[self.done].clone()),
            EnsurePhase::Finished => SchemaAction::Finish(
                CreatedObjects {
                    created: copy_names(&self.queue),
                    already_present: copy_names(&self.present),
                },
            ),
            EnsurePhase::ListFailed => SchemaAction::Fail(
                SchemaError::ListFailed(self.cause.clone()),
            ),
            EnsurePhase::CreateFailed => SchemaAction::Fail(
                SchemaError::CreateFailed(self.queue[self.done].clone(), self.cause.clone()),
            ),
        }
    }

    /// Takes an answer of the store and gives the next state with what to
    /// do in it.
    pub fn step(self, event: SchemaEvent) -> (next: (SchemaEnsurer, SchemaAction))
        ensures
            next.0@ == self@.after(event@),
            next.0@.valid(),
            next.1@ == next.0@.pending(),
    {
        proof {
            use_type_invariant(&self);
        }
        let SchemaEnsurer { declared, phase, queue, present, done, cause } = self;
        assert(queue.deep_view().len() == queue.len());
        let state = match phase {
            EnsurePhase::Listing => match event {
                SchemaEvent::Listed(existing) => {
                    let (queue, present) = plan_objects(&declared, &existing);
                    assert(queue.deep_view().len() == queue.len());
                    let phase = if queue.len() == 0 {
                        EnsurePhase::Finished
                    } else {
                        EnsurePhase::Creating
                    };
                    SchemaEnsurer { declared, phase, queue, present, done: 0, cause }
                },
                SchemaEvent::ListFailed(reason) => SchemaEnsurer {
                    declared,
                    phase: EnsurePhase::ListFailed,
                    queue,
                    present,
                    done,
                    cause: reason,
                },
                _ => SchemaEnsurer { declared, phase, queue, present, done, cause },
            },
            EnsurePhase::Creating => match event {
                SchemaEvent::Created => {
                    let done = done + 1;
                    let phase = if done == queue.len() {
                        EnsurePhase::Finished
                    } else {
                        EnsurePhase::Creating
                    };
                    SchemaEnsurer { declared, phase, queue, present, done, cause }
                },
                SchemaEvent::CreateFailed(reason) => SchemaEnsurer {
                    declared,
                    phase: EnsurePhase::CreateFailed,
                    queue,
                    present,
                    done,
                    cause: reason,
                },
                _ => SchemaEnsurer { declared, phase, queue, present, done, cause },
            },
            _ => SchemaEnsurer { declared, phase, queue, present, done, cause },
        };
        let action = state.pending_action();
        (state, action)
    }
}

/// From the listing on, as long as the store creates what it is asked to,
/// ensuring asks for the missing names one by one, in order, and then
/// finishes with all of them reported as created.
pub proof fn lemma_creates_each_missing_name(state: EnsurerView, k: nat)
    requires
        state.valid(),
        state.phase == EnsurePhase::Creating,
        state.done + k <= state.queue.len(),
    ensures
        after_created(state, k).done == state.done + k,
        after_created(state, k).queue == state.queue,
        after_created(state, k).present == state.present,
        after_created(state, k).valid(),
        state.done + k < state.queue.len() ==> after_created(state, k).pending()
            == SchemaActionView::CreateObject(state.queue[(state.done + k) as int]),
        state.done + k == state.queue.len() ==> after_created(state, k).pending()
            == SchemaActionView::Finish(
            CreatedObjectsView { created: state.queue, already_present: state.present },
        ),
    decreases k,
{
    if k > 0 {
        lemma_creates_each_missing_name(state, (k - 1) as nat);
    }
}

/// The state after `k` objects in a row were created.
pub open spec fn after_created(state: EnsurerView, k: nat) -> EnsurerView
    decreases k,
{
    if k == 0 {
        state
    } else {
        after_created(state, (k - 1) as nat).after(SchemaEventView::Created)
    }
}

/// A whole run against a store that lists `existing` and creates what it
/// is asked to: ensuring asks for exactly the missing names and finishes
/// with them reported as created, so that the store then holds
/// `store_after_ensure(existing.to_set(), declared)`.
pub proof fn lemma_run_creates_missing(declared: Seq<Seq<char>>, existing: Seq<Seq<char>>)
    ensures
        ({
            let listed = EnsurerView::initial(declared).after(SchemaEventView::Listed(existing));
            let missing = missing_names(declared, existing.to_set());
            let report = CreatedObjectsView {
                created: missing,
                already_present: present_names(declared, existing.to_set()),
            };
            &&& listed.valid()
            &&& listed.queue == missing
            &&& missing.len() == 0 ==> listed.pending() == SchemaActionView::Finish(report)
            &&& missing.len() > 0 ==> after_created(listed, missing.len()).pending()
                == SchemaActionView::Finish(report)
            &&& existing.to_set().union(missing.to_set()) == store_after_ensure(
                existing.to_set(),
                declared,
            )
        }),
{
    let listed = EnsurerView::initial(declared).after(SchemaEventView::Listed(existing));
    if listed.queue.len() > 0 {
        lemma_creates_each_missing_name(listed, listed.queue.len());
    }
}

} // verus!

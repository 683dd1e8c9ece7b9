//! The per-store pipeline (resolve, connect, ensure the schema, seed) and the
//! aggregate over the selected stores.

use vstd::prelude::*;
use crate::config::{
    outcome_view, resolve, resolve_spec, text_view, ConfigError, ConfigErrorView, StoreConfig,
    StoreKind,
};
use crate::names::copy_names;
use crate::schema::{CreatedObjects, CreatedObjectsView, SchemaError, SchemaErrorView};
use crate::seed::{SeedError, SeedErrorView, SeedReport, SeedReportView};

verus! {

/// Why a store could not be reached.
#[derive(Clone, Copy, Debug, PartialEq, Eq, Structural)]
pub enum ConnectionError {
    /// The liveness probe did not succeed in time.
    Unreachable,
    /// The store rejected the credentials.
    AuthFailed,
}

/// Why a store's pipeline failed.
#[derive(Clone, Debug, PartialEq, Eq)]
pub enum BootstrapError {
    Config(ConfigError),
    Connection(ConnectionError),
    Schema(SchemaError),
    Seed(SeedError),
}

pub enum BootstrapErrorView {
    Config(ConfigErrorView),
    Connection(ConnectionError),
    Schema(SchemaErrorView),
    Seed(SeedErrorView),
}

impl View for BootstrapError {
    type V = BootstrapErrorView;

    open spec fn view(&self) -> BootstrapErrorView {
        match self {
            BootstrapError::Config(error) => BootstrapErrorView::Config(error@),
            BootstrapError::Connection(error) => BootstrapErrorView::Connection(*error),
            BootstrapError::Schema(error) => BootstrapErrorView::Schema(error@),
            BootstrapError::Seed(error) => BootstrapErrorView::Seed(error@),
        }
    }
}

/// How a store's pipeline ended.
#[derive(Clone, Debug, PartialEq, Eq)]
pub enum StoreStatus {
    /// Everything declared was created and every record inserted.
    Ready,
    /// The store is ready; the listed objects and keys were found in place
    /// and left as they were.
    ReadyWithWarnings(Vec<String>),
    Failed(BootstrapError),
}

pub enum StoreStatusView {
    Ready,
    ReadyWithWarnings(Seq<Seq<char>>),
    Failed(BootstrapErrorView),
}

impl View for StoreStatus {
    type V = StoreStatusView;

    open spec fn view(&self) -> StoreStatusView {
        match self {
            StoreStatus::Ready => StoreStatusView::Ready,
            StoreStatus::ReadyWithWarnings(found) => StoreStatusView::ReadyWithWarnings(
                found.deep_view(),
            ),
            StoreStatus::Failed(error) => StoreStatusView::Failed(error@),
        }
    }
}

impl StoreStatus {
    pub fn is_failed(&self) -> (failed: bool)
        ensures
            failed == (self@ is Failed),
    {
        match self {
            StoreStatus::Failed(_) => true,
            _ => false,
        }
    }
}

/// What came of opening a connection and probing it.
#[derive(Clone, Copy, Debug, PartialEq, Eq, Structural)]
pub enum ProbeOutcome {
    /// The store answered the probe.
    Alive,
    /// The probe got no answer in time.
    TimedOut,
    /// The store rejected the credentials.
    CredentialsRejected,
}

/// What a probe's outcome means for the pipeline.
pub open spec fn connection_event_spec(outcome: ProbeOutcome) -> PipelineEventView {
    match outcome {
        ProbeOutcome::Alive => PipelineEventView::Connected,
        ProbeOutcome::TimedOut => PipelineEventView::ConnectFailed(ConnectionError::Unreachable),
        ProbeOutcome::CredentialsRejected => PipelineEventView::ConnectFailed(
            ConnectionError::AuthFailed,
        ),
    }
}

/// The pipeline event for a probe's outcome.
pub fn connection_event(outcome: ProbeOutcome) -> (event: PipelineEvent)
    ensures
        event@ == connection_event_spec(outcome),
{
    match outcome {
        ProbeOutcome::Alive => PipelineEvent::Connected,
        ProbeOutcome::TimedOut => PipelineEvent::ConnectFailed(ConnectionError::Unreachable),
        ProbeOutcome::CredentialsRejected => PipelineEvent::ConnectFailed(
            ConnectionError::AuthFailed,
        ),
    }
}

/// The status of a store that came through: `Ready` where nothing was found
/// in place, else `ReadyWithWarnings` with what was.
pub open spec fn ready_status(found: Seq<Seq<char>>) -> StoreStatusView {
    if found.len() == 0 {
        StoreStatusView::Ready
    } else {
        StoreStatusView::ReadyWithWarnings(found)
    }
}

/// The operation that a store's pipeline is to perform now.
#[derive(Clone, Copy, Debug, PartialEq, Eq, Structural)]
pub enum Stage {
    Resolve,
    Connect,
    EnsureSchema,
    Seed,
}

/// What came of the operation.
#[derive(Clone, Debug, PartialEq, Eq)]
pub enum PipelineEvent {
    Resolved,
    ResolveFailed(ConfigError),
    Connected,
    ConnectFailed(ConnectionError),
    SchemaEnsured(CreatedObjects),
    SchemaFailed(SchemaError),
    Seeded(SeedReport),
    SeedFailed(SeedError),
}

pub enum PipelineEventView {
    Resolved,
    ResolveFailed(ConfigErrorView),
    Connected,
    ConnectFailed(ConnectionError),
    SchemaEnsured(CreatedObjectsView),
    SchemaFailed(SchemaErrorView),
    Seeded(SeedReportView),
    SeedFailed(SeedErrorView),
}

impl View for PipelineEvent {
    type V = PipelineEventView;

    open spec fn view(&self) -> PipelineEventView {
        match self {
            PipelineEvent::Resolved => PipelineEventView::Resolved,
            PipelineEvent::ResolveFailed(error) => PipelineEventView::ResolveFailed(error@),
            PipelineEvent::Connected => PipelineEventView::Connected,
            PipelineEvent::ConnectFailed(error) => PipelineEventView::ConnectFailed(*error),
            PipelineEvent::SchemaEnsured(report) => PipelineEventView::SchemaEnsured(report@),
            PipelineEvent::SchemaFailed(error) => PipelineEventView::SchemaFailed(error@),
            PipelineEvent::Seeded(report) => PipelineEventView::Seeded(report@),
            PipelineEvent::SeedFailed(error) => PipelineEventView::SeedFailed(error@),
        }
    }
}

/// One store's pipeline: the store, the operation to perform now, and what
/// was found in place so far.
#[derive(Clone, Debug, PartialEq, Eq)]
pub struct StorePipeline {
    pub kind: StoreKind,
    pub stage: Stage,
    pub found: Vec<String>,
}

pub struct PipelineView {
    pub kind: StoreKind,
    pub stage: Stage,
    pub found: Seq<Seq<char>>,
}

impl View for StorePipeline {
    type V = PipelineView;

    open spec fn view(&self) -> PipelineView {
        PipelineView { kind: self.kind, stage: self.stage, found: self.found.deep_view() }
    }
}

/// Where a pipeline stands after an operation.
#[derive(Clone, Debug, PartialEq, Eq)]
pub enum PipelineStep {
    /// Perform the operation of the pipeline's stage.
    Proceed(StorePipeline),
    /// The pipeline is over; nothing more is to be done for this store.
    Concluded(StoreStatus),
}

pub enum PipelineStepView {
    Proceed(PipelineView),
    Concluded(StoreStatusView),
}

impl View for PipelineStep {
    type V = PipelineStepView;

    open spec fn view(&self) -> PipelineStepView {
        match self {
            PipelineStep::Proceed(pipeline) => PipelineStepView::Proceed(pipeline@),
            PipelineStep::Concluded(status) => PipelineStepView::Concluded(status@),
        }
    }
}

impl PipelineView {
    /// The pipeline of a store before anything was done.
    pub open spec fn initial(kind: StoreKind) -> PipelineView {
        PipelineView { kind, stage: Stage::Resolve, found: Seq::empty() }
    }

    /// Where the pipeline stands after an operation came out as `event`. A
    /// failure concludes the pipeline at once. An outcome of an operation
    /// other than the stage's changes nothing.
    pub open spec fn after(self, event: PipelineEventView) -> PipelineStepView {
        match (self.stage, event) {
            (Stage::Resolve, PipelineEventView::Resolved) => PipelineStepView::Proceed(
                PipelineView { stage: Stage::Connect, ..self },
            ),
            (Stage::Resolve, PipelineEventView::ResolveFailed(error)) => {
                PipelineStepView::Concluded(
                    StoreStatusView::Failed(BootstrapErrorView::Config(error)),
                )
            },
            (Stage::Connect, PipelineEventView::Connected) => PipelineStepView::Proceed(
                PipelineView { stage: Stage::EnsureSchema, ..self },
            ),
            (Stage::Connect, PipelineEventView::ConnectFailed(error)) => {
                PipelineStepView::Concluded(
                    StoreStatusView::Failed(BootstrapErrorView::Connection(error)),
                )
            },
            (Stage::EnsureSchema, PipelineEventView::SchemaEnsured(report)) => {
                if self.kind.needs_seeding() {
                    PipelineStepView::Proceed(
                        PipelineView { stage: Stage::Seed, found: report.already_present, ..self },
                    )
                } else {
                    PipelineStepView::Concluded(ready_status(report.already_present))
                }
            },
            (Stage::EnsureSchema, PipelineEventView::SchemaFailed(error)) => {
                PipelineStepView::Concluded(
                    StoreStatusView::Failed(BootstrapErrorView::Schema(error)),
                )
            },
            (Stage::Seed, PipelineEventView::Seeded(report)) => PipelineStepView::Concluded(
                ready_status(self.found + report.skipped),
            ),
            (Stage::Seed, PipelineEventView::SeedFailed(error)) => PipelineStepView::Concluded(
                StoreStatusView::Failed(BootstrapErrorView::Seed(error)),
            ),
            _ => PipelineStepView::Proceed(self),
        }
    }
}

/// The status for what was found in place.
pub fn status_of(found: Vec<String>) -> (status: StoreStatus)
    ensures
        status@ == ready_status(found.deep_view()),
{
    if found.len() == 0 {
        StoreStatus::Ready
    } else {
        StoreStatus::ReadyWithWarnings(found)
    }
}

impl StorePipeline {
    /// The pipeline of a store before anything was done: its configuration
    /// is to be resolved.
    pub fn new(kind: StoreKind) -> (pipeline: StorePipeline)
        ensures
            pipeline@ == PipelineView::initial(kind),
    {
        let pipeline = StorePipeline { kind, stage: Stage::Resolve, found: Vec::new() };
        assert(pipeline.found.deep_view() =~= Seq::<Seq<char>>::empty());
        pipeline
    }

    /// Takes the outcome of an operation and says where the pipeline stands.
    pub fn step(self, event: PipelineEvent) -> (next: PipelineStep)
        ensures
            next@ == self@.after(event@),
    {
        let StorePipeline { kind, stage, found } = self;
        match stage {
            Stage::Resolve => match event {
                PipelineEvent::Resolved => PipelineStep::Proceed(
                    StorePipeline { kind, stage: Stage::Connect, found },
                ),
                PipelineEvent::ResolveFailed(error) => PipelineStep::Concluded(
                    StoreStatus::Failed(BootstrapError::Config(error)),
                ),
                _ => PipelineStep::Proceed(StorePipeline { kind, stage, found }),
            },
            Stage::Connect => match event {
                PipelineEvent::Connected => PipelineStep::Proceed(
                    StorePipeline { kind, stage: Stage::EnsureSchema, found },
                ),
                PipelineEvent::ConnectFailed(error) => PipelineStep::Concluded(
                    StoreStatus::Failed(BootstrapError::Connection(error)),
                ),
                _ => PipelineStep::Proceed(StorePipeline { kind, stage, found }),
            },
            Stage::EnsureSchema => match event {
                PipelineEvent::SchemaEnsured(report) => {
                    if kind.requires_seeding() {
                        PipelineStep::Proceed(
                            StorePipeline {
                                kind,
                                stage: Stage::Seed,
                                found: report.already_present,
                            },
                        )
                    } else {
                        PipelineStep::Concluded(status_of(report.already_present))
                    }
                },
                PipelineEvent::SchemaFailed(error) => PipelineStep::Concluded(
                    StoreStatus::Failed(BootstrapError::Schema(error)),
                ),
                _ => PipelineStep::Proceed(StorePipeline { kind, stage, found }),
            },
            Stage::Seed => match event {
                PipelineEvent::Seeded(report) => {
                    let mut all = found;
                    let skipped = report.skipped;
                    let mut i: usize = 0;
                    let ghost start = all.deep_view();
                    assert(start + skipped.deep_view().take(0) =~= start);
                    while i < skipped.len()
                        invariant
                            i <= skipped.len(),
                            all.deep_view() == start + skipped.deep_view().take(i as int),
                        decreases skipped.len() - i,
                    {
                        let ghost before = all.deep_view();
                        all.push(skipped[i].clone());
                        proof {
                            assert(all.deep_view() =~= before.push(skipped@[i as int]@));
                            assert(start + skipped.deep_view().take(i as int + 1) =~= before.push(
                                skipped@[i as int]@,
                            ));
                        }
                        i += 1;
                    }
                    assert(skipped.deep_view().take(skipped.len() as int) =~= skipped.deep_view());
                    PipelineStep::Concluded(status_of(all))
                },
                PipelineEvent::SeedFailed(error) => PipelineStep::Concluded(
                    StoreStatus::Failed(BootstrapError::Seed(error)),
                ),
                _ => PipelineStep::Proceed(StorePipeline { kind, stage, found }),
            },
        }
    }

    /// Resolves the store's configuration from the values of its variables
    /// and takes the pipeline's first step: on to connecting, with the
    /// configuration, or concluded as failed, with none.
    pub fn resolve_store(
        kind: StoreKind,
        uri: Option<String>,
        database: Option<String>,
        objects: Option<String>,
    ) -> (r: (PipelineStep, Option<StoreConfig>))
        ensures
            match resolve_spec(kind, text_view(uri), text_view(database), text_view(objects)) {
                Ok(config) => r.0@ == PipelineStepView::Proceed(
                    PipelineView { stage: Stage::Connect, ..PipelineView::initial(kind) },
                ) && r.1 is Some && r.1->0@ == config,
                Err(error) => r.0@ == PipelineStepView::Concluded(
                    StoreStatusView::Failed(BootstrapErrorView::Config(error)),
                ) && r.1 is None,
            },
    {
        let pipeline = StorePipeline::new(kind);
        match resolve(kind, uri, database, objects) {
            Ok(config) => (pipeline.step(PipelineEvent::Resolved), Some(config)),
            Err(error) => (pipeline.step(PipelineEvent::ResolveFailed(error)), None),
        }
    }
}

/// A failed operation concludes the pipeline as failed: no later operation
/// is asked for. In particular nothing is connected to after a configuration
/// error, and no schema or seed operation follows a failed connection.
pub proof fn lemma_failure_concludes(pipeline: PipelineView, event: PipelineEventView)
    requires
        match (pipeline.stage, event) {
            (Stage::Resolve, PipelineEventView::ResolveFailed(_)) => true,
            (Stage::Connect, PipelineEventView::ConnectFailed(_)) => true,
            (Stage::EnsureSchema, PipelineEventView::SchemaFailed(_)) => true,
            (Stage::Seed, PipelineEventView::SeedFailed(_)) => true,
            _ => false,
        },
    ensures
        pipeline.after(event) matches PipelineStepView::Concluded(status) && status is Failed,
{
}

/// The stages come in order, one at a time: a pipeline reaches connecting
/// only from a resolved configuration, schema ensuring only from a live
/// connection, and seeding only from a schema that was ensured, and only for
/// a store that is seeded.
pub proof fn lemma_stages_in_order(pipeline: PipelineView, event: PipelineEventView)
    ensures
        match pipeline.after(event) {
            PipelineStepView::Proceed(next) => next.kind == pipeline.kind && (next.stage
                != pipeline.stage ==> match next.stage {
                Stage::Resolve => false,
                Stage::Connect => pipeline.stage == Stage::Resolve && event
                    is Resolved,
                Stage::EnsureSchema => pipeline.stage == Stage::Connect && event
                    is Connected,
                Stage::Seed => pipeline.stage == Stage::EnsureSchema && event is SchemaEnsured
                    && pipeline.kind.needs_seeding(),
            }),
            PipelineStepView::Concluded(_) => true,
        },
{
}

/// The stores to provision.
#[derive(Clone, Copy, Debug, PartialEq, Eq, Structural)]
pub struct StoreSelection {
    pub data: bool,
    pub user: bool,
    pub relational: bool,
}

impl StoreSelection {
    pub open spec fn selects(self, kind: StoreKind) -> bool {
        match kind {
            StoreKind::Data => self.data,
            StoreKind::User => self.user,
            StoreKind::Relational => self.relational,
        }
    }
}

/// The statuses of the stores attempted, in the order of the attempts.
#[derive(Clone, Debug, PartialEq, Eq)]
pub struct BootstrapResult {
    pub statuses: Vec<(StoreKind, StoreStatus)>,
}

impl View for BootstrapResult {
    type V = Seq<(StoreKind, StoreStatusView)>;

    open spec fn view(&self) -> Seq<(StoreKind, StoreStatusView)> {
        self.statuses@.map_values(|entry: (StoreKind, StoreStatus)| (entry.0, entry.1@))
    }
}

/// Whether a store of the result failed.
pub open spec fn any_failed(result: Seq<(StoreKind, StoreStatusView)>) -> bool {
    exists|i: int| 0 <= i < result.len() && (#[trigger] result[i]).1 is Failed
}

/// Whether the store was attempted.
pub open spec fn attempted(result: Seq<(StoreKind, StoreStatusView)>, kind: StoreKind) -> bool {
    exists|i: int| 0 <= i < result.len() && (#[trigger] result[i]).0 == kind
}

/// Whether the store is still to be attempted.
pub open spec fn awaits(
    selection: StoreSelection,
    result: Seq<(StoreKind, StoreStatusView)>,
    kind: StoreKind,
) -> bool {
    selection.selects(kind) && !attempted(result, kind)
}

/// The store to attempt next: none once a store failed and `fail_fast` is
/// set; else the first selected store not attempted yet, in the order data,
/// user, relational.
pub open spec fn next_store_spec(
    selection: StoreSelection,
    fail_fast: bool,
    result: Seq<(StoreKind, StoreStatusView)>,
) -> Option<StoreKind> {
    if fail_fast && any_failed(result) {
        None
    } else if awaits(selection, result, StoreKind::Data) {
        Some(StoreKind::Data)
    } else if awaits(selection, result, StoreKind::User) {
        Some(StoreKind::User)
    } else if awaits(selection, result, StoreKind::Relational) {
        Some(StoreKind::Relational)
    } else {
        None
    }
}

impl BootstrapResult {
    /// The result before any store was attempted.
    pub fn new() -> (result: BootstrapResult)
        ensures
            result@ == Seq::<(StoreKind, StoreStatusView)>::empty(),
    {
        let result = BootstrapResult { statuses: Vec::new() };
        assert(result@ =~= Seq::<(StoreKind, StoreStatusView)>::empty());
        result
    }

    /// Records how a store's pipeline ended.
    pub fn record(&mut self, kind: StoreKind, status: StoreStatus)
        ensures
            final(self)@ == old(self)@.push((kind, status@)),
    {
        self.statuses.push((kind, status));
        assert(self@ =~= old(self)@.push((kind, status@)));
    }

    /// Whether a store failed.
    pub fn has_failure(&self) -> (failed: bool)
        ensures
            failed == any_failed(self@),
    {
        let mut i: usize = 0;
        while i < self.statuses.len()
            invariant
                i <= self.statuses.len(),
                forall|j: int| 0 <= j < i ==> !((#[trigger] self@[j]).1 is Failed),
            decreases self.statuses.len() - i,
        {
            if self.statuses[i].1.is_failed() {
                assert(self@[i as int].1 is Failed);
                return true;
            }
            i += 1;
        }
        false
    }

    /// Whether the store was attempted.
    pub fn was_attempted(&self, kind: StoreKind) -> (found: bool)
        ensures
            found == attempted(self@, kind),
    {
        let mut i: usize = 0;
        while i < self.statuses.len()
            invariant
                i <= self.statuses.len(),
                forall|j: int| 0 <= j < i ==> (#[trigger] self@[j]).0 != kind,
            decreases self.statuses.len() - i,
        {
            if self.statuses[i].0 == kind {
                assert(self@[i as int].0 == kind);
                return true;
            }
            i += 1;
        }
        false
    }

    /// The process exit code: 0 where no store failed, else 1.
    pub fn exit_code(&self) -> (code: i32)
        ensures
            code == if any_failed(self@) { 1i32 } else { 0i32 },
    {
        if self.has_failure() {
            1
        } else {
            0
        }
    }
}

/// The store to attempt next, if any.
pub fn next_store(selection: StoreSelection, fail_fast: bool, result: &BootstrapResult) -> (next:
    Option<StoreKind>)
    ensures
        next == next_store_spec(selection, fail_fast, result@),
{
    if fail_fast && result.has_failure() {
        None
    } else if selection.data && !result.was_attempted(StoreKind::Data) {
        Some(StoreKind::Data)
    } else if selection.user && !result.was_attempted(StoreKind::User) {
        Some(StoreKind::User)
    } else if selection.relational && !result.was_attempted(StoreKind::Relational) {
        Some(StoreKind::Relational)
    } else {
        None
    }
}

/// A store's failure does not keep the next store from being attempted,
/// unless `fail_fast` is set: then nothing is attempted after it.
pub proof fn lemma_failure_policy(
    selection: StoreSelection,
    fail_fast: bool,
    result: Seq<(StoreKind, StoreStatusView)>,
)
    ensures
        fail_fast && any_failed(result) ==> next_store_spec(selection, fail_fast, result) is None,
        !fail_fast ==> next_store_spec(selection, fail_fast, result) == next_store_spec(
            selection,
            false,
            Seq::new(result.len(), |i: int| (result[i].0, StoreStatusView::Ready)),
        ),
{
    let cleared = Seq::new(result.len(), |i: int| (result[i].0, StoreStatusView::Ready));
    assert forall|kind: StoreKind| attempted(result, kind) == attempted(cleared, kind) by {
        if attempted(result, kind) {
            let i = choose|i: int| 0 <= i < result.len() && (#[trigger] result[i]).0 == kind;
            assert(cleared[i].0 == kind);
        }
        if attempted(cleared, kind) {
            let i = choose|i: int| 0 <= i < cleared.len() && (#[trigger] cleared[i]).0 == kind;
            assert(result[i].0 == kind);
        }
    }
}

} // verus!

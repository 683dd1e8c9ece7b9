use store_bootstrap::config::{ConfigError, StoreConfig, StoreKind};
use store_bootstrap::orchestrator::{
    connection_event, next_store, status_of, ProbeOutcome, BootstrapError, BootstrapResult, ConnectionError, PipelineEvent,
    PipelineStep, Stage, StorePipeline, StoreSelection, StoreStatus,
};
use store_bootstrap::schema::{CreatedObjects, SchemaError};
use store_bootstrap::seed::{SeedError, SeedReport};

fn words(items: &[&str]) -> Vec<String> {
    items.iter().map(|item| item.to_string()).collect()
}

fn proceed(step: PipelineStep) -> StorePipeline {
    match step {
        PipelineStep::Proceed(pipeline) => pipeline,
        PipelineStep::Concluded(status) => panic!("concluded early: {status:?}"),
    }
}

const ALL: StoreSelection = StoreSelection { data: true, user: true, relational: true };

#[test]
fn an_unreachable_store_fails_before_any_schema_or_seed_operation() {
    let pipeline = proceed(StorePipeline::new(StoreKind::User).step(PipelineEvent::Resolved));
    assert_eq!(pipeline.stage, Stage::Connect);
    let event = connection_event(ProbeOutcome::TimedOut);
    assert_eq!(event, PipelineEvent::ConnectFailed(ConnectionError::Unreachable));
    let step = pipeline.step(event);
    assert_eq!(
        step,
        PipelineStep::Concluded(StoreStatus::Failed(BootstrapError::Connection(
            ConnectionError::Unreachable
        )))
    );
}

#[test]
fn rejected_credentials_fail_the_store() {
    let pipeline = proceed(StorePipeline::new(StoreKind::Data).step(PipelineEvent::Resolved));
    let step = pipeline.step(connection_event(ProbeOutcome::CredentialsRejected));
    assert_eq!(
        step,
        PipelineStep::Concluded(StoreStatus::Failed(BootstrapError::Connection(
            ConnectionError::AuthFailed
        )))
    );
}

#[test]
fn a_live_store_goes_on_to_its_schema() {
    assert_eq!(connection_event(ProbeOutcome::Alive), PipelineEvent::Connected);
    let pipeline = proceed(StorePipeline::new(StoreKind::Data).step(PipelineEvent::Resolved));
    let pipeline = proceed(pipeline.step(connection_event(ProbeOutcome::Alive)));
    assert_eq!(pipeline.stage, Stage::EnsureSchema);
}

#[test]
fn a_malformed_list_never_reaches_connecting() {
    for raw in ["not-json", r#"["a", 1]"#] {
        let (step, config) = StorePipeline::resolve_store(
            StoreKind::User,
            Some("mongodb://localhost".to_string()),
            Some("users".to_string()),
            Some(raw.to_string()),
        );
        assert_eq!(
            step,
            PipelineStep::Concluded(StoreStatus::Failed(BootstrapError::Config(
                ConfigError::MalformedList(raw.to_string())
            )))
        );
        assert_eq!(config, None);
    }
}

#[test]
fn a_resolved_store_goes_on_to_connect() {
    let (step, config) = StorePipeline::resolve_store(
        StoreKind::Data,
        Some("mongodb://localhost".to_string()),
        Some("data".to_string()),
        Some(r#"["cards","decks"]"#.to_string()),
    );
    assert_eq!(
        step,
        PipelineStep::Proceed(StorePipeline {
            kind: StoreKind::Data,
            stage: Stage::Connect,
            found: vec![],
        })
    );
    assert_eq!(
        config,
        Some(StoreConfig {
            connection_uri: "mongodb://localhost".to_string(),
            database_name: "data".to_string(),
            declared_object_names: words(&["cards", "decks"]),
        })
    );
}

#[test]
fn a_missing_variable_fails_the_store() {
    let (step, config) = StorePipeline::resolve_store(StoreKind::Relational, None, None, None);
    assert_eq!(
        step,
        PipelineStep::Concluded(StoreStatus::Failed(BootstrapError::Config(
            ConfigError::MissingVariable("DATA_DB_URL".to_string())
        )))
    );
    assert_eq!(config, None);
}

#[test]
fn the_user_store_is_seeded_after_its_schema() {
    let pipeline = proceed(StorePipeline::new(StoreKind::User).step(PipelineEvent::Resolved));
    let pipeline = proceed(pipeline.step(PipelineEvent::Connected));
    assert_eq!(pipeline.stage, Stage::EnsureSchema);
    let report = CreatedObjects { created: words(&["session"]), already_present: words(&["user"]) };
    let pipeline = proceed(pipeline.step(PipelineEvent::SchemaEnsured(report)));
    assert_eq!(pipeline.stage, Stage::Seed);
    let seeded = SeedReport { inserted: words(&["b@x.com"]), skipped: words(&["a@x.com"]) };
    assert_eq!(
        pipeline.step(PipelineEvent::Seeded(seeded)),
        PipelineStep::Concluded(StoreStatus::ReadyWithWarnings(words(&["user", "a@x.com"])))
    );
}

#[test]
fn a_fresh_store_ends_ready() {
    let pipeline = proceed(StorePipeline::new(StoreKind::User).step(PipelineEvent::Resolved));
    let pipeline = proceed(pipeline.step(PipelineEvent::Connected));
    let report = CreatedObjects { created: words(&["user"]), already_present: words(&[]) };
    let pipeline = proceed(pipeline.step(PipelineEvent::SchemaEnsured(report)));
    let seeded = SeedReport { inserted: words(&["a@x.com"]), skipped: words(&[]) };
    assert_eq!(
        pipeline.step(PipelineEvent::Seeded(seeded)),
        PipelineStep::Concluded(StoreStatus::Ready)
    );
}

#[test]
fn a_store_without_seeding_ends_after_its_schema() {
    for kind in [StoreKind::Data, StoreKind::Relational] {
        let pipeline = proceed(StorePipeline::new(kind).step(PipelineEvent::Resolved));
        let pipeline = proceed(pipeline.step(PipelineEvent::Connected));
        let report = CreatedObjects { created: words(&["cards"]), already_present: words(&[]) };
        assert_eq!(
            pipeline.step(PipelineEvent::SchemaEnsured(report)),
            PipelineStep::Concluded(StoreStatus::Ready)
        );
    }
}

#[test]
fn a_schema_failure_keeps_the_store_from_being_seeded() {
    let pipeline = proceed(StorePipeline::new(StoreKind::User).step(PipelineEvent::Resolved));
    let pipeline = proceed(pipeline.step(PipelineEvent::Connected));
    let error = SchemaError::CreateFailed("user".to_string(), "denied".to_string());
    assert_eq!(
        pipeline.step(PipelineEvent::SchemaFailed(error.clone())),
        PipelineStep::Concluded(StoreStatus::Failed(BootstrapError::Schema(error)))
    );
}

#[test]
fn a_seed_failure_fails_the_store() {
    let pipeline = StorePipeline { kind: StoreKind::User, stage: Stage::Seed, found: vec![] };
    assert_eq!(
        pipeline.clone().step(PipelineEvent::SeedFailed(SeedError::LookupFailed)),
        PipelineStep::Concluded(StoreStatus::Failed(BootstrapError::Seed(SeedError::LookupFailed)))
    );
    let error = SeedError::InsertFailed("a@x.com".to_string(), "disk full".to_string());
    assert_eq!(
        pipeline.step(PipelineEvent::SeedFailed(error.clone())),
        PipelineStep::Concluded(StoreStatus::Failed(BootstrapError::Seed(error)))
    );
}

#[test]
fn an_outcome_of_another_stage_changes_nothing() {
    let pipeline = StorePipeline::new(StoreKind::User);
    let same = proceed(pipeline.clone().step(PipelineEvent::Connected));
    assert_eq!(same, pipeline);
    let same = proceed(pipeline.clone().step(PipelineEvent::SeedFailed(SeedError::LookupFailed)));
    assert_eq!(same, pipeline);
    let connecting = proceed(pipeline.step(PipelineEvent::Resolved));
    let report = SeedReport { inserted: vec![], skipped: vec![] };
    assert_eq!(proceed(connecting.clone().step(PipelineEvent::Seeded(report))), connecting);
}

#[test]
fn status_of_what_was_found() {
    assert_eq!(status_of(vec![]), StoreStatus::Ready);
    assert_eq!(status_of(words(&["x"])), StoreStatus::ReadyWithWarnings(words(&["x"])));
    assert!(!StoreStatus::Ready.is_failed());
    assert!(!StoreStatus::ReadyWithWarnings(words(&["x"])).is_failed());
    assert!(StoreStatus::Failed(BootstrapError::Seed(SeedError::LookupFailed)).is_failed());
}

#[test]
fn stores_are_attempted_in_order_whatever_the_outcome() {
    let mut result = BootstrapResult::new();
    assert_eq!(next_store(ALL, false, &result), Some(StoreKind::Data));
    result.record(
        StoreKind::Data,
        StoreStatus::Failed(BootstrapError::Connection(ConnectionError::Unreachable)),
    );
    assert_eq!(next_store(ALL, false, &result), Some(StoreKind::User));
    result.record(StoreKind::User, StoreStatus::Ready);
    assert_eq!(next_store(ALL, false, &result), Some(StoreKind::Relational));
    result.record(StoreKind::Relational, StoreStatus::ReadyWithWarnings(words(&["cards"])));
    assert_eq!(next_store(ALL, false, &result), None);
    assert!(result.has_failure());
    assert_eq!(result.exit_code(), 1);
    assert_eq!(result.statuses.len(), 3);
}

#[test]
fn fail_fast_stops_at_the_first_failure() {
    let mut result = BootstrapResult::new();
    result.record(StoreKind::Data, StoreStatus::Ready);
    assert_eq!(next_store(ALL, true, &result), Some(StoreKind::User));
    result.record(
        StoreKind::User,
        StoreStatus::Failed(BootstrapError::Connection(ConnectionError::AuthFailed)),
    );
    assert_eq!(next_store(ALL, true, &result), None);
    assert_eq!(next_store(ALL, false, &result), Some(StoreKind::Relational));
    assert_eq!(result.exit_code(), 1);
}

#[test]
fn only_selected_stores_are_attempted() {
    let selection = StoreSelection { data: false, user: true, relational: false };
    let mut result = BootstrapResult::new();
    assert_eq!(next_store(selection, false, &result), Some(StoreKind::User));
    assert!(!result.was_attempted(StoreKind::User));
    result.record(StoreKind::User, StoreStatus::Ready);
    assert!(result.was_attempted(StoreKind::User));
    assert_eq!(next_store(selection, false, &result), None);
    assert_eq!(result.exit_code(), 0);
    let nothing = StoreSelection { data: false, user: false, relational: false };
    assert_eq!(next_store(nothing, true, &BootstrapResult::new()), None);
    assert_eq!(BootstrapResult::new().exit_code(), 0);
}

//! Resolution of a store's configuration from the values of its environment
//! variables.

use vstd::prelude::*;

verus! {

/// The stores that can be provisioned.
#[derive(Clone, Copy, Debug, PartialEq, Eq, Structural)]
pub enum StoreKind {
    /// The document store holding game data.
    Data,
    /// The document store holding user accounts; the only one that is seeded.
    User,
    /// The relational store, whose schema is brought up by migrations.
    Relational,
}

/// The storage engine behind a store.
#[derive(Clone, Copy, Debug, PartialEq, Eq, Structural)]
pub enum Engine {
    Document,
    Relational,
}

/// A store's resolved configuration.
#[derive(Clone, Debug, PartialEq, Eq)]
pub struct StoreConfig {
    pub connection_uri: String,
    pub database_name: String,
    pub declared_object_names: Vec<String>,
}

pub struct StoreConfigView {
    pub connection_uri: Seq<char>,
    pub database_name: Seq<char>,
    pub declared_object_names: Seq<Seq<char>>,
}

impl View for StoreConfig {
    type V = StoreConfigView;

    open spec fn view(&self) -> StoreConfigView {
        StoreConfigView {
            connection_uri: self.connection_uri@,
            database_name: self.database_name@,
            declared_object_names: self.declared_object_names.deep_view(),
        }
    }
}

/// Why a configuration could not be resolved.
#[derive(Clone, Debug, PartialEq, Eq)]
pub enum ConfigError {
    /// The named variable is not set.
    MissingVariable(String),
    /// The object-list variable holds this text, which is no JSON array of strings.
    MalformedList(String),
}

pub enum ConfigErrorView {
    MissingVariable(Seq<char>),
    MalformedList(Seq<char>),
}

impl View for ConfigError {
    type V = ConfigErrorView;

    open spec fn view(&self) -> ConfigErrorView {
        match self {
            ConfigError::MissingVariable(name) => ConfigErrorView::MissingVariable(name@),
            ConfigError::MalformedList(raw) => ConfigErrorView::MalformedList(raw@),
        }
    }
}

#[verifier::external_type_specification]
#[verifier::external_body]
pub struct ExJsonError(serde_json::Error);

/// The strings that `serde_json::from_str::<Vec<String>>` reads from a text,
/// or `None` where it returns an error.
pub uninterp spec fn json_string_list(raw: Seq<char>) -> Option<Seq<Seq<char>>>;

/// Calls `serde_json::from_str::<Vec<String>>`. Trusted: the outcome is a
/// function of the text alone, and it is the one that `json_string_list` names.
#[verifier::external_body]
fn parse_string_list(raw: &str) -> (r: Result<Vec<String>, serde_json::Error>)
    ensures
        match r {
            Ok(list) => json_string_list(raw@) == Some(list.deep_view()),
            Err(_) => json_string_list(raw@).is_none(),
        },
{
    serde_json::from_str::<Vec<String>>(raw)
}

impl StoreKind {
    /// The engine behind this store.
    pub open spec fn engine_of(self) -> Engine {
        match self {
            StoreKind::Data => Engine::Document,
            StoreKind::User => Engine::Document,
            StoreKind::Relational => Engine::Relational,
        }
    }

    /// Whether default records are seeded into this store.
    pub open spec fn needs_seeding(self) -> bool {
        self == StoreKind::User
    }

    pub fn engine(self) -> (e: Engine)
        ensures
            e == self.engine_of(),
    {
        match self {
            StoreKind::Data => Engine::Document,
            StoreKind::User => Engine::Document,
            StoreKind::Relational => Engine::Relational,
        }
    }

    pub fn requires_seeding(self) -> (b: bool)
        ensures
            b == self.needs_seeding(),
    {
        match self {
            StoreKind::User => true,
            _ => false,
        }
    }
}

/// The name of the variable that holds a store's connection string.
pub open spec fn uri_variable_name(kind: StoreKind) -> Seq<char> {
    match kind {
        StoreKind::Data => "DATA_INITDB_URI"@,
        StoreKind::User => "USER_INITDB_URI"@,
        StoreKind::Relational => "DATA_DB_URL"@,
    }
}

/// The name of the variable that holds a store's database or schema name.
pub open spec fn database_variable_name(kind: StoreKind) -> Seq<char> {
    match kind {
        StoreKind::Data => "DATA_INITDB_DATABASE"@,
        StoreKind::User => "USER_INITDB_DATABASE"@,
        StoreKind::Relational => "DATA_DB_DATABASE"@,
    }
}

/// The name of the variable that holds a store's declared object names.
pub open spec fn objects_variable_name(kind: StoreKind) -> Seq<char> {
    match kind {
        StoreKind::Data => "DATA_INITDB_TABLES"@,
        StoreKind::User => "USER_INITDB_TABLES"@,
        StoreKind::Relational => "DATA_DB_TABLES"@,
    }
}

pub fn uri_variable(kind: StoreKind) -> (name: String)
    ensures
        name@ == uri_variable_name(kind),
{
    match kind {
        StoreKind::Data => "DATA_INITDB_URI".to_owned(),
        StoreKind::User => "USER_INITDB_URI".to_owned(),
        StoreKind::Relational => "DATA_DB_URL".to_owned(),
    }
}

pub fn database_variable(kind: StoreKind) -> (name: String)
    ensures
        name@ == database_variable_name(kind),
{
    match kind {
        StoreKind::Data => "DATA_INITDB_DATABASE".to_owned(),
        StoreKind::User => "USER_INITDB_DATABASE".to_owned(),
        StoreKind::Relational => "DATA_DB_DATABASE".to_owned(),
    }
}

pub fn objects_variable(kind: StoreKind) -> (name: String)
    ensures
        name@ == objects_variable_name(kind),
{
    match kind {
        StoreKind::Data => "DATA_INITDB_TABLES".to_owned(),
        StoreKind::User => "USER_INITDB_TABLES".to_owned(),
        StoreKind::Relational => "DATA_DB_TABLES".to_owned(),
    }
}

pub open spec fn text_view(value: Option<String>) -> Option<Seq<char>> {
    match value {
        Some(text) => Some(text@),
        None => None,
    }
}

pub open spec fn list_view(value: Option<Vec<String>>) -> Option<Seq<Seq<char>>> {
    match value {
        Some(list) => Some(list.deep_view()),
        None => None,
    }
}

pub open spec fn outcome_view(r: Result<StoreConfig, ConfigError>) -> Result<
    StoreConfigView,
    ConfigErrorView,
> {
    match r {
        Ok(config) => Ok(config@),
        Err(error) => Err(error@),
    }
}

/// What resolution yields from the three variables' values and from the
/// reading of the object list: the first absent variable is reported, in the
/// order connection string, database name, object list; then a list that
/// could not be read; else the configuration.
pub open spec fn resolve_outcome(
    kind: StoreKind,
    uri: Option<Seq<char>>,
    database: Option<Seq<char>>,
    objects: Option<Seq<char>>,
    parsed: Option<Seq<Seq<char>>>,
) -> Result<StoreConfigView, ConfigErrorView> {
    if uri is None {
        Err(ConfigErrorView::MissingVariable(uri_variable_name(kind)))
    } else if database is None {
        Err(ConfigErrorView::MissingVariable(database_variable_name(kind)))
    } else if objects is None {
        Err(ConfigErrorView::MissingVariable(objects_variable_name(kind)))
    } else if parsed is None {
        Err(ConfigErrorView::MalformedList(objects->0))
    } else {
        Ok(
            StoreConfigView {
                connection_uri: uri->0,
                database_name: database->0,
                declared_object_names: parsed->0,
            },
        )
    }
}

/// What resolution yields from the three variables' values.
pub open spec fn resolve_spec(
    kind: StoreKind,
    uri: Option<Seq<char>>,
    database: Option<Seq<char>>,
    objects: Option<Seq<char>>,
) -> Result<StoreConfigView, ConfigErrorView> {
    let parsed = match objects {
        Some(raw) => json_string_list(raw),
        None => None,
    };
    resolve_outcome(kind, uri, database, objects, parsed)
}

/// Assembles a configuration from the variables' values and the object list
/// as it was read (`None` where the text is no JSON array of strings).
pub fn resolve_with(
    kind: StoreKind,
    uri: Option<String>,
    database: Option<String>,
    objects: Option<String>,
    parsed: Option<Vec<String>>,
) -> (r: Result<StoreConfig, ConfigError>)
    ensures
        outcome_view(r) == resolve_outcome(
            kind,
            text_view(uri),
            text_view(database),
            text_view(objects),
            list_view(parsed),
        ),
{
    let connection_uri = match uri {
        Some(text) => text,
        None => { return Err(ConfigError::MissingVariable(uri_variable(kind))); },
    };
    let database_name = match database {
        Some(text) => text,
        None => { return Err(ConfigError::MissingVariable(database_variable(kind))); },
    };
    let raw = match objects {
        Some(text) => text,
        None => { return Err(ConfigError::MissingVariable(objects_variable(kind))); },
    };
    match parsed {
        Some(declared_object_names) => Ok(
            StoreConfig { connection_uri, database_name, declared_object_names },
        ),
        None => Err(ConfigError::MalformedList(raw)),
    }
}

/// Resolves a store's configuration from the values of its three variables
/// (`None` for a variable that is not set).
pub fn resolve(
    kind: StoreKind,
    uri: Option<String>,
    database: Option<String>,
    objects: Option<String>,
) -> (r: Result<StoreConfig, ConfigError>)
    ensures
        outcome_view(r) == resolve_spec(
            kind,
            text_view(uri),
            text_view(database),
            text_view(objects),
        ),
{
    let parsed = match &objects {
        Some(raw) => match parse_string_list(raw.as_str()) {
            Ok(list) => Some(list),
            Err(_) => None,
        },
        None => None,
    };
    resolve_with(kind, uri, database, objects, parsed)
}

/// A set connection string and database name with an object list that cannot
/// be read as a JSON array of strings always resolve to `MalformedList`,
/// carrying the text as it was given.
pub proof fn lemma_malformed_list_rejected(
    kind: StoreKind,
    uri: Seq<char>,
    database: Seq<char>,
    raw: Seq<char>,
)
    requires
        json_string_list(raw) is None,
    ensures
        resolve_spec(kind, Some(uri), Some(database), Some(raw)) == Err::<
            StoreConfigView,
            ConfigErrorView,
        >(ConfigErrorView::MalformedList(raw)),
{
}

} // verus!

//! The kinds of objects the memory holds, their statuses, and the server's
//! settings.
use vstd::prelude::*;

use crate::json::{field_text, get_text, JsonValue};
use crate::text::{append_decimal, append_str, chars_of, decimal, string_from_str, string_of};

verus! {

/// The kind of a stored object.
#[derive(Debug, Clone, Copy, PartialEq, Eq, Structural)]
pub enum ObjectType {
    Symbol,
    Decision,
    Changeset,
    Run,
}

/// Who or what produced an object.
#[derive(Debug, Clone)]
pub struct Provenance {
    pub agent: String,
    pub model: Option<String>,
    pub tools: Option<Vec<String>>,
    pub summary: String,
}

/// The kind of a code symbol.
#[derive(Debug, Clone, Copy, PartialEq, Eq, Structural)]
pub enum SymbolKind {
    File,
    Module,
    Class,
    Function,
    Variable,
    Type,
}

impl SymbolKind {
    /// The kind's lowercase name.
    pub open spec fn name_spec(self) -> Seq<char> {
        match self {
            SymbolKind::File => "file"@,
            SymbolKind::Module => "module"@,
            SymbolKind::Class => "class"@,
            SymbolKind::Function => "function"@,
            SymbolKind::Variable => "variable"@,
            SymbolKind::Type => "type"@,
        }
    }

    /// The kind's lowercase name.
    pub fn as_str(&self) -> (r: &'static str)
        ensures
            r@ == self.name_spec(),
    {
        match self {
            SymbolKind::File => "file",
            SymbolKind::Module => "module",
            SymbolKind::Class => "class",
            SymbolKind::Function => "function",
            SymbolKind::Variable => "variable",
            SymbolKind::Type => "type",
        }
    }
}

/// One option weighed in a decision.
#[derive(Debug, Clone)]
pub struct DecisionOption {
    pub name: String,
    pub description: String,
    pub pros: Option<Vec<String>>,
    pub cons: Option<Vec<String>>,
}

/// Where a decision stands.
#[derive(Debug, Clone, Copy, PartialEq, Eq, Structural)]
pub enum DecisionStatus {
    Proposed,
    Accepted,
    Rejected,
    Superseded,
}

/// The outcome of one test of a change set.
#[derive(Debug, Clone)]
pub struct TestResult {
    pub name: String,
    pub status: TestStatus,
    pub output: Option<String>,
}

/// Whether a test passed.
#[derive(Debug, Clone, Copy, PartialEq, Eq, Structural)]
pub enum TestStatus {
    Passed,
    Failed,
    Skipped,
}

/// Where a change set stands.
#[derive(Debug, Clone, Copy, PartialEq, Eq, Structural)]
pub enum ChangeSetStatus {
    Draft,
    Review,
    Approved,
    Merged,
    Rejected,
}

/// The kind of something a run produced.
#[derive(Debug, Clone, Copy, PartialEq, Eq, Structural)]
pub enum RunOutputType {
    File,
    Command,
    Response,
    Artifact,
}

/// Where a run stands.
#[derive(Debug, Clone, Copy, PartialEq, Eq, Structural)]
pub enum RunStatus {
    Running,
    Completed,
    Failed,
    Cancelled,
}

/// The kind of a relationship between two objects.
#[derive(Debug, Clone, Copy, PartialEq, Eq, Structural)]
pub enum RelationType {
    DependsOn,
    DefinedIn,
    Calls,
    JustifiedBy,
    Modifies,
    Implements,
    Produced,
}

impl RelationType {
    /// The relationship table's name.
    pub open spec fn table_spec(self) -> Seq<char> {
        match self {
            RelationType::DependsOn => "depends_on"@,
            RelationType::DefinedIn => "defined_in"@,
            RelationType::Calls => "calls"@,
            RelationType::JustifiedBy => "justified_by"@,
            RelationType::Modifies => "modifies"@,
            RelationType::Implements => "implements"@,
            RelationType::Produced => "produced"@,
        }
    }

    /// The relationship table's name.
    pub fn table(&self) -> (r: &'static str)
        ensures
            r@ == self.table_spec(),
    {
        match self {
            RelationType::DependsOn => "depends_on",
            RelationType::DefinedIn => "defined_in",
            RelationType::Calls => "calls",
            RelationType::JustifiedBy => "justified_by",
            RelationType::Modifies => "modifies",
            RelationType::Implements => "implements",
            RelationType::Produced => "produced",
        }
    }
}

/// The settings a user can change.
#[derive(Debug, Clone)]
pub struct SettingsConfig {
    pub port: u16,
    pub bind_address: String,
    pub database_url: String,
    pub db_user: String,
    pub db_pass: String,
    /// `openai`, `openrouter`, `ollama` or `none`.
    pub embedding_provider: String,
    pub openai_api_key: String,
    pub openai_model: String,
    pub openai_dimension: u32,
    pub openrouter_api_key: String,
    pub openrouter_model: String,
    pub openrouter_dimension: u32,
    pub ollama_url: String,
    pub ollama_model: String,
    pub ollama_dimension: u32,
    /// `openai`, `openrouter`, `ollama` or `none`.
    pub index_provider: String,
    pub index_openai_model: String,
    pub index_openrouter_model: String,
    pub index_ollama_model: String,
    pub index_workers: u32,
    pub max_embedding_dimension: u32,
}

impl Default for SettingsConfig {
    fn default() -> (r: Self)
        ensures
            r.port == 8105,
            r.bind_address@ == "127.0.0.1"@,
            r.database_url@ == "ws://localhost:7505/rpc"@,
            r.db_user@ == "root"@,
            r.db_pass@ == "root"@,
            r.embedding_provider@ == "none"@,
            r.openai_api_key@ == ""@,
            r.openai_model@ == "text-embedding-3-small"@,
            r.openai_dimension == 1536,
            r.openrouter_api_key@ == ""@,
            r.openrouter_model@ == "text-embedding-3-small"@,
            r.openrouter_dimension == 1536,
            r.ollama_url@ == "http://localhost:11434"@,
            r.ollama_model@ == "nomic-embed-text"@,
            r.ollama_dimension == 768,
            r.index_provider@ == "none"@,
            r.index_openai_model@ == "gpt-4o-mini"@,
            r.index_openrouter_model@ == "openai/gpt-4o-mini"@,
            r.index_ollama_model@ == "llama3.1"@,
            r.index_workers == 4,
            r.max_embedding_dimension == 1536,
    {
        SettingsConfig {
            port: 8105,
            bind_address: string_from_str("127.0.0.1"),
            database_url: string_from_str("ws://localhost:7505/rpc"),
            db_user: string_from_str("root"),
            db_pass: string_from_str("root"),
            embedding_provider: string_from_str("none"),
            openai_api_key: string_from_str(""),
            openai_model: string_from_str("text-embedding-3-small"),
            openai_dimension: 1536,
            openrouter_api_key: string_from_str(""),
            openrouter_model: string_from_str("text-embedding-3-small"),
            openrouter_dimension: 1536,
            ollama_url: string_from_str("http://localhost:11434"),
            ollama_model: string_from_str("nomic-embed-text"),
            ollama_dimension: 768,
            index_provider: string_from_str("none"),
            index_openai_model: string_from_str("gpt-4o-mini"),
            index_openrouter_model: string_from_str("openai/gpt-4o-mini"),
            index_ollama_model: string_from_str("llama3.1"),
            index_workers: 4,
            max_embedding_dimension: 1536,
        }
    }
}

/// The server's configuration.
#[derive(Debug, Clone)]
pub struct Config {
    pub database_url: String,
    pub embedding_service_url: Option<String>,
    pub max_embedding_dimension: usize,
    pub port: u16,
    pub bind_address: String,
    pub embedding_provider: String,
    pub openai_api_key: Option<String>,
    pub ollama_url: String,
    pub embedding_dimension: usize,
    pub embedding_model: String,
}

/// An entry of the recent-activity feed.
#[derive(Debug, Clone)]
pub struct ActivityItem {
    pub id: String,
    pub activity_type: String,
    pub action: String,
    pub timestamp: String,
    pub details: String,
}

/// Counts of what the indexer has done.
#[derive(Debug, Clone)]
pub struct IndexingStats {
    pub files_indexed: i64,
    pub symbols_extracted: i64,
    pub last_index_time: String,
    pub indexing_speed: String,
}

/// An entry of the system event log.
#[derive(Debug, Clone)]
pub struct SystemEvent {
    pub time: String,
    pub event: String,
    pub origin: String,
    pub status: String,
    pub alert: bool,
}

/// A configured port: refused when 0 (`PORT must be greater than 0`).
pub fn validate_port(port: u16) -> (r: Result<u16, String>)
    ensures
        match r {
            Ok(p) => port > 0 && p == port,
            Err(e) => port == 0 && e@ == "PORT must be greater than 0"@,
        },
{
    if port == 0 {
        Err(string_from_str("PORT must be greater than 0"))
    } else {
        Ok(port)
    }
}

/// A configured largest embedding dimension: refused outside 1 to 10000.
pub fn validate_max_embedding_dimension(d: usize) -> (r: Result<usize, String>)
    ensures
        match r {
            Ok(v) => 1 <= d <= 10000 && v == d,
            Err(e) => (d == 0 || d > 10000) && e@ == "MAX_EMBEDDING_DIMENSION must be between 1 and 10000"@,
        },
{
    if d == 0 || d > 10000 {
        Err(string_from_str("MAX_EMBEDDING_DIMENSION must be between 1 and 10000"))
    } else {
        Ok(d)
    }
}

/// The feed entry of the `i`-th recently created object: numbered from 0,
/// of the object's type (`unknown` when it has none), created at its
/// creation time (empty when it has none).
pub open spec fn activity_spec(v: JsonValue, i: nat) -> (Seq<char>, Seq<char>, Seq<char>, Seq<char>, Seq<char>) {
    let ty = match field_text(v, "type"@) {
        Some(t) => t,
        None => "unknown"@,
    };
    (
        "activity_"@ + decimal(i),
        ty,
        "Created"@,
        match field_text(v, "created_at"@) {
            Some(c) => c,
            None => Seq::empty(),
        },
        ty + " object created"@,
    )
}

/// The plain values of a feed entry.
pub open spec fn activity_view(a: ActivityItem) -> (Seq<char>, Seq<char>, Seq<char>, Seq<char>, Seq<char>) {
    (a.id@, a.activity_type@, a.action@, a.timestamp@, a.details@)
}

/// The recent-activity feed of the most recently created objects, in order.
pub fn activity_items(objects: &Vec<JsonValue>) -> (r: Vec<ActivityItem>)
    ensures
        r@.len() == objects@.len(),
        forall|i: int| 0 <= i < r@.len() ==> activity_view(#[trigger] r@[i]) == activity_spec(objects@[i], i as nat),
{
    let mut out: Vec<ActivityItem> = Vec::new();
    let mut k: usize = 0;
    while k < objects.len()
        invariant
            k <= objects@.len(),
            out@.len() == k,
            forall|i: int| 0 <= i < k ==> activity_view(#[trigger] out@[i]) == activity_spec(objects@[i], i as nat),
        decreases objects@.len() - k,
    {
        let ty = match get_text(&objects[k], "type") {
            Some(t) => t,
            None => string_from_str("unknown"),
        };
        let created = match get_text(&objects[k], "created_at") {
            Some(c) => c,
            None => String::new(),
        };
        let mut id = chars_of("activity_");
        append_decimal(&mut id, k as u64);
        let mut details = chars_of(ty.as_str());
        append_str(&mut details, " object created");
        let item = ActivityItem {
            id: string_of(&id),
            activity_type: ty,
            action: string_from_str("Created"),
            timestamp: created,
            details: string_of(&details),
        };
        out.push(item);
        k = k + 1;
    }
    out
}

} // verus!

//! Operator-facing spec of a binding.
//!
//! One binding is one operator-fixed SQL statement and one MCP tool or
//! resource. Project, dataset, location, credentials, statement and query
//! bounds all stand on the binding's own spec.

use vstd::prelude::*;

use crate::decimal::{decimal, render};
use crate::keyed::NameTable;
use crate::surface::Surface;
use crate::text::{blank, count_char, is_blank, occurrences};

verus! {

/// How the binding authenticates to BigQuery.
#[derive(Debug, Clone, Copy, PartialEq, Eq, Structural)]
pub enum BigQueryAuthMode {
    /// Service-account key JSON (`credentials_json`).
    ServiceAccount,
}

impl Default for BigQueryAuthMode {
    fn default() -> (r: BigQueryAuthMode)
        ensures
            r == BigQueryAuthMode::ServiceAccount,
    {
        BigQueryAuthMode::ServiceAccount
    }
}

impl BigQueryAuthMode {
    /// The configuration word of the mode.
    pub fn as_str(self) -> (r: &'static str)
        ensures
            r@ == "service_account"@,
    {
        match self {
            BigQueryAuthMode::ServiceAccount => "service_account",
        }
    }
}

/// Auth block: the mode, and the service-account key as its JSON document.
#[derive(Debug, Clone)]
pub struct BigQueryAuth {
    pub mode: BigQueryAuthMode,
    pub credentials_json: String,
}

/// Query-execution bounds.
#[derive(Debug, Clone)]
pub struct BigQueryQueryConfig {
    /// Use BigQuery legacy SQL.
    pub use_legacy_sql: bool,
    /// Refuse SQL that is not read-only.
    pub read_only: bool,
    /// Cost cap in bytes; none leaves the project default.
    pub maximum_bytes_billed: Option<u64>,
    /// Ceiling on the whole round-trip, in milliseconds.
    pub timeout_ms: u64,
    /// Cap on returned rows.
    pub max_rows: usize,
    /// Plan the statement without running it, and return an estimate.
    pub dry_run: bool,
    /// On-demand price per TiB scanned (USD), as the bits of a double.
    pub price_per_tib_usd: Option<u64>,
}

/// Whether legacy SQL is used where the spec does not say.
pub fn default_use_legacy_sql() -> (r: bool)
    ensures
        r == false,
{
    false
}

/// Whether the read-only guard is on where the spec does not say.
pub fn default_read_only() -> (r: bool)
    ensures
        r == true,
{
    true
}

/// The ceiling on a round-trip where the spec does not say.
pub fn default_timeout_ms() -> (r: u64)
    ensures
        r == 60_000,
{
    60_000
}

/// The row cap where the spec does not say.
pub fn default_max_rows() -> (r: usize)
    ensures
        r == 10_000,
{
    10_000
}

/// The rows per listing page where the spec does not say.
pub fn default_list_page_size() -> (r: u64)
    ensures
        r == 100,
{
    100
}

/// The bounds where the spec does not say.
pub open spec fn default_bounds() -> BigQueryQueryConfig {
    BigQueryQueryConfig {
        use_legacy_sql: false,
        read_only: true,
        maximum_bytes_billed: None,
        timeout_ms: 60_000,
        max_rows: 10_000,
        dry_run: false,
        price_per_tib_usd: None,
    }
}

impl Default for BigQueryQueryConfig {
    fn default() -> (r: BigQueryQueryConfig)
        ensures
            r == default_bounds(),
    {
        BigQueryQueryConfig {
            use_legacy_sql: default_use_legacy_sql(),
            read_only: default_read_only(),
            maximum_bytes_billed: None,
            timeout_ms: default_timeout_ms(),
            max_rows: default_max_rows(),
            dry_run: false,
            price_per_tib_usd: None,
        }
    }
}

/// Operator-fixed completion query for one template variable.
#[derive(Debug, Clone, PartialEq)]
pub struct CompletionConfig {
    /// SELECT whose first column holds the candidates. Its single `?` is bound
    /// to the typed prefix.
    pub sql: String,
    /// Cap on returned candidates; 100 where it is not set.
    pub max_results: Option<u32>,
}

/// Operator-fixed listing statement and page bound for `resources/list`.
#[derive(Debug, Clone, PartialEq)]
pub struct ListQueryConfig {
    /// SELECT with one row per resource, run as it stands.
    pub sql: String,
    /// Rows per page, in 1..=1000.
    pub page_size: u64,
}

/// Operator-facing spec of a binding.
#[derive(Debug)]
pub struct BigQueryBackendSpec {
    /// GCP project the queries bill to and run in.
    pub project_id: String,
    /// Default dataset for unqualified table names.
    pub dataset: Option<String>,
    /// Location the job runs in.
    pub location: Option<String>,
    /// Auth block.
    pub auth: BigQueryAuth,
    /// Query-execution bounds.
    pub query: BigQueryQueryConfig,
    /// The operator-fixed statement; `params[i]` binds its i-th `?`.
    pub statement: String,
    /// CEL expressions over the call's arguments, one for each `?`.
    pub params: Vec<String>,
    /// MCP surface the binding serves.
    pub surface: Surface,
    /// Static resource URI, for the resource surface.
    pub uri: Option<String>,
    /// Listing statement for `resources/list`.
    pub list_query: Option<ListQueryConfig>,
    /// Completion queries by template variable.
    pub variable_completions: NameTable<CompletionConfig>,
    /// Single-row read statement of a resource template.
    pub read_query: Option<String>,
}

impl BigQueryBackendSpec {
    /// The spec that names a project and an auth block and leaves the rest to
    /// its defaults.
    pub fn with_defaults(project_id: String, auth: BigQueryAuth) -> (r: BigQueryBackendSpec)
        ensures
            r.project_id == project_id,
            r.auth == auth,
            r.dataset is None,
            r.location is None,
            r.query == default_bounds(),
            r.statement@ == Seq::<char>::empty(),
            r.params@ == Seq::<String>::empty(),
            r.surface == Surface::Tool,
            r.uri is None,
            r.list_query is None,
            r.variable_completions@ == Seq::<(Seq<char>, CompletionConfig)>::empty(),
            r.read_query is None,
    {
        BigQueryBackendSpec {
            project_id,
            dataset: None,
            location: None,
            auth,
            query: BigQueryQueryConfig::default(),
            statement: String::new(),
            params: Vec::new(),
            surface: Surface::default(),
            uri: None,
            list_query: None,
            variable_completions: NameTable::new(),
            read_query: None,
        }
    }
}

/// The message of a refusal, or nothing where there is none.
pub open spec fn refusal(r: Result<(), String>) -> Option<Seq<char>> {
    match r {
        Ok(()) => None,
        Err(m) => Some(m@),
    }
}

/// Why a listing query is refused: blank SQL, then a page size outside
/// 1..=1000.
pub open spec fn list_query_fault(cfg: ListQueryConfig) -> Option<Seq<char>> {
    if is_blank(cfg.sql@) {
        Some("list_query.sql must not be empty"@)
    } else if !(1 <= cfg.page_size <= 1000) {
        Some("list_query.page_size ("@ + decimal(cfg.page_size as nat) + ") must be in 1..=1000"@)
    } else {
        None
    }
}

/// Fail-closed validation of a listing query.
pub fn validate_list_query(cfg: &ListQueryConfig) -> (r: Result<(), String>)
    ensures
        refusal(r) == list_query_fault(*cfg),
{
    if blank(cfg.sql.as_str()) {
        return Err("list_query.sql must not be empty".to_owned());
    }
    if cfg.page_size == 0 || cfg.page_size > 1_000 {
        let mut m = "list_query.page_size (".to_owned();
        m.append(render(cfg.page_size as u128).as_str());
        m.append(") must be in 1..=1000");
        return Err(m);
    }
    Ok(())
}

/// Why the completion query of `name` is refused: blank SQL, then SQL that
/// does not hold exactly one `?`.
pub open spec fn completion_fault(name: Seq<char>, cfg: CompletionConfig) -> Option<Seq<char>> {
    if is_blank(cfg.sql@) {
        Some("variable_completions."@ + name + ".sql must not be empty"@)
    } else if occurrences(cfg.sql@, '?') != 1 {
        Some(
            "variable_completions."@ + name
                + ".sql must reference the `?` placeholder (bound to the typed prefix)"@,
        )
    } else {
        None
    }
}

/// Validate a completion query: SQL that is not blank and references exactly
/// one `?` placeholder, the bound prefix.
pub fn validate_completion(name: &str, cfg: &CompletionConfig) -> (r: Result<(), String>)
    ensures
        refusal(r) == completion_fault(name@, *cfg),
{
    if blank(cfg.sql.as_str()) {
        let mut m = "variable_completions.".to_owned();
        m.append(name);
        m.append(".sql must not be empty");
        return Err(m);
    }
    if count_char(cfg.sql.as_str(), '?') != 1 {
        let mut m = "variable_completions.".to_owned();
        m.append(name);
        m.append(".sql must reference the `?` placeholder (bound to the typed prefix)");
        return Err(m);
    }
    Ok(())
}

} // verus!

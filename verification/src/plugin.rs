//! The bindings of the plugin: what a spec must satisfy to be registered, the
//! profile that a registered spec becomes, and the table of profiles.

use vstd::prelude::*;

use crate::arguments::{
    all_argument_names, arguments_referenced_by_params, first_seen, input_schema_of,
    params_input_schema, CompiledParam,
};
use crate::envelope::{
    envelope_schema, estimate_envelope_schema, estimate_properties, result_envelope_schema,
    result_properties,
};
use crate::json::{no_members, Json, JsonObject, JsonView};
use crate::keyed::{comes_before, law_stored_then_lookup, lookup, stored, NameTable};
use crate::surface::{surface_word, Surface};
use crate::text::{begins_with, blank, chars_of, contains, is_blank, occurs_in, some_text, starts_with, texts};
use crate::types::{
    completion_fault, list_query_fault, refusal, validate_completion, validate_list_query,
    BigQueryBackendSpec, CompletionConfig, ListQueryConfig,
};

verus! {

/// Why a call to the plugin fails.
#[derive(Debug)]
pub enum BackendError {
    /// The binding's spec, or a cursor, is not usable.
    InvalidSpec { message: String },
    /// No binding of that name is registered.
    ProfileNotFound { backend_name: String },
    /// The call to BigQuery failed.
    Transport { message: String },
    /// The call to BigQuery took too long.
    Timeout { timeout_ms: u64 },
}

/// What the read-only guard says of the texts that `guarded_texts` collects of a
/// spec. The verdicts on
/// the completion queries stand in the order of their names; the verdict on a
/// text that the spec leaves out is not read.
#[derive(Debug)]
pub struct GuardVerdicts {
    pub statement: Result<(), String>,
    pub read_query: Result<(), String>,
    pub list_query: Result<(), String>,
    pub completions: Vec<Result<(), String>>,
}

/// The SQL texts of a spec that the read-only guard is to look at, each as it
/// stands. Those of the completion queries stand in the order of their names.
#[derive(Debug)]
pub struct GuardedTexts {
    pub statement: Option<String>,
    pub read_query: Option<String>,
    pub list_query: Option<String>,
    pub completions: Vec<String>,
}

/// The texts are those of the spec that the guard is to look at.
pub open spec fn are_guarded(spec: BigQueryBackendSpec, r: GuardedTexts) -> bool {
    &&& some_text(r.statement) == (if is_blank(spec.statement@) {
        None
    } else {
        Some(spec.statement@)
    })
    &&& some_text(r.read_query) == some_text(spec.read_query)
    &&& some_text(r.list_query) == (match spec.list_query {
        Some(q) => Some(q.sql@),
        None => None,
    })
    &&& r.completions@.len() == spec.variable_completions@.len()
    &&& forall|i: int|
        0 <= i < r.completions@.len() ==> (#[trigger] r.completions@[i])@
            == spec.variable_completions@[i].1.sql@
}

/// Collect the SQL texts of a spec for the guard. A blank statement is left out.
pub fn guarded_texts(spec: &BigQueryBackendSpec) -> (r: GuardedTexts)
    ensures
        are_guarded(*spec, r),
{
    let table = &spec.variable_completions;
    let n: usize = table.len();
    let mut completions: Vec<String> = Vec::new();
    let mut i: usize = 0;
    while i < n
        invariant
            i <= n,
            n == table@.len(),
            completions@.len() == i,
            forall|j: int|
                0 <= j < i ==> (#[trigger] completions@[j])@ == table@[j].1.sql@,
        decreases n - i,
    {
        completions.push(table.value_at(i).sql.clone());
        i = i + 1;
    }
    GuardedTexts {
        statement: if blank(spec.statement.as_str()) {
            None
        } else {
            Some(spec.statement.clone())
        },
        read_query: match &spec.read_query {
            Some(q) => Some(q.clone()),
            None => None,
        },
        list_query: match &spec.list_query {
            Some(q) => Some(q.sql.clone()),
            None => None,
        },
        completions,
    }
}

/// The first fault where there is one, else the second.
pub open spec fn or_else(first: Option<Seq<char>>, second: Option<Seq<char>>) -> Option<
    Seq<char>,
> {
    match first {
        Some(m) => Some(m),
        None => second,
    }
}

/// A fault that is there where `faulty` holds.
pub open spec fn fault_if(faulty: bool, message: Seq<char>) -> Option<Seq<char>> {
    if faulty {
        Some(message)
    } else {
        None
    }
}

/// The guard's message, where the guard is on and says no.
pub open spec fn guard_fault(read_only: bool, verdict: Result<(), String>) -> Option<Seq<char>> {
    if read_only {
        refusal(verdict)
    } else {
        None
    }
}

/// The text is left out or blank.
pub open spec fn absent_or_blank(s: Option<String>) -> bool {
    match s {
        Some(t) => is_blank(t@),
        None => true,
    }
}

/// Faults of the connection and of the query bounds.
pub open spec fn bounds_fault(spec: BigQueryBackendSpec) -> Option<Seq<char>> {
    or_else(
        fault_if(is_blank(spec.project_id@), "project_id must not be empty"@),
        or_else(
            fault_if(
                is_blank(spec.statement@) && absent_or_blank(spec.read_query),
                "statement must not be empty (or set `read_query` for a resource_template read binding)"@,
            ),
            or_else(
                fault_if(spec.query.timeout_ms == 0, "query.timeout_ms must be greater than 0"@),
                fault_if(spec.query.max_rows == 0, "query.max_rows must be greater than 0"@),
            ),
        ),
    )
}

/// Faults of the credentials: a per-caller reference, or nothing.
pub open spec fn credentials_fault(spec: BigQueryBackendSpec) -> Option<Seq<char>> {
    let key = spec.auth.credentials_json@;
    or_else(
        fault_if(
            begins_with(key, "cred://"@),
            "auth.credentials_json must not be a cred:// URI — per-caller credentials are unsupported (the connection is one service identity); use ${env.X} / vault:// (resolved at config load) instead"@,
        ),
        fault_if(
            is_blank(key),
            "auth.credentials_json must not be empty for mode service_account"@,
        ),
    )
}

/// What is said of a field that stands on the wrong surface.
pub open spec fn off_surface(field: Seq<char>, surface: Surface) -> Seq<char> {
    field + " is only valid with `surface: resource` (this binding is `surface: "@ + surface_word(
        surface,
    ) + "`)"@
}

/// Faults of the static URI.
pub open spec fn uri_fault(spec: BigQueryBackendSpec) -> Option<Seq<char>> {
    match spec.uri {
        Some(u) => or_else(
            fault_if(spec.surface != Surface::Resource, off_surface("`uri`"@, spec.surface)),
            fault_if(is_blank(u@), "`uri` must not be empty"@),
        ),
        None => None,
    }
}

/// Faults of the single-row read statement.
pub open spec fn read_query_fault(spec: BigQueryBackendSpec, verdict: Result<(), String>) -> Option<
    Seq<char>,
> {
    match spec.read_query {
        Some(q) => or_else(
            fault_if(is_blank(q@), "`read_query` must not be empty"@),
            or_else(
                fault_if(
                    spec.surface != Surface::Resource,
                    off_surface("`read_query`"@, spec.surface),
                ),
                or_else(
                    fault_if(
                        occurs_in(q@, "cred://"@),
                        "`read_query` must not contain a bare cred:// URI — use ${cred://…} / ${env.X} (resolved at config load)"@,
                    ),
                    guard_fault(spec.query.read_only, verdict),
                ),
            ),
        ),
        None => None,
    }
}

/// Faults of the listing query.
pub open spec fn listing_fault(spec: BigQueryBackendSpec, verdict: Result<(), String>) -> Option<
    Seq<char>,
> {
    match spec.list_query {
        Some(q) => or_else(list_query_fault(q), guard_fault(spec.query.read_only, verdict)),
        None => None,
    }
}

/// Faults of the completion queries from position `i` on, in the order of
/// their names.
pub open spec fn completions_fault(
    entries: Seq<(Seq<char>, CompletionConfig)>,
    read_only: bool,
    verdicts: Seq<Result<(), String>>,
    i: int,
) -> Option<Seq<char>>
    decreases entries.len() - i,
{
    if i < 0 || i >= entries.len() {
        None
    } else {
        or_else(
            completion_fault(entries[i].0, entries[i].1),
            or_else(
                guard_fault(read_only, verdicts[i]),
                completions_fault(entries, read_only, verdicts, i + 1),
            ),
        )
    }
}

/// The message of a failure, or nothing where there is none.
pub open spec fn failure_of<T>(r: Result<T, String>) -> Option<Seq<char>> {
    match r {
        Ok(_) => None,
        Err(m) => Some(m@),
    }
}

/// The fault of the statement under the guard. A statement that is left out is
/// not guarded.
pub open spec fn statement_fault(spec: BigQueryBackendSpec, verdict: Result<(), String>) -> Option<
    Seq<char>,
> {
    guard_fault(spec.query.read_only && !is_blank(spec.statement@), verdict)
}

/// Why a spec is not registered: the first of its faults, in the order in
/// which they are looked for.
pub open spec fn registration_fault(
    spec: BigQueryBackendSpec,
    verdicts: GuardVerdicts,
    compiled: Result<Vec<CompiledParam>, String>,
) -> Option<Seq<char>> {
    or_else(
        bounds_fault(spec),
        or_else(
            credentials_fault(spec),
            or_else(
                statement_fault(spec, verdicts.statement),
                or_else(
                    uri_fault(spec),
                    or_else(
                        read_query_fault(spec, verdicts.read_query),
                        or_else(
                            listing_fault(spec, verdicts.list_query),
                            or_else(
                                completions_fault(
                                    spec.variable_completions@,
                                    spec.query.read_only,
                                    verdicts.completions@,
                                    0,
                                ),
                                failure_of(compiled),
                            ),
                        ),
                    ),
                ),
            ),
        ),
    )
}

/// A copy of a verdict's message, where the guard is on and says no.
fn guarded(read_only: bool, verdict: &Result<(), String>) -> (r: Result<(), String>)
    ensures
        refusal(r) == guard_fault(read_only, *verdict),
{
    if read_only {
        if let Err(m) = verdict {
            return Err(m.clone());
        }
    }
    Ok(())
}

fn check_bounds(spec: &BigQueryBackendSpec) -> (r: Result<(), String>)
    ensures
        refusal(r) == bounds_fault(*spec),
{
    if blank(spec.project_id.as_str()) {
        return Err("project_id must not be empty".to_owned());
    }
    let no_read_query = match &spec.read_query {
        Some(q) => blank(q.as_str()),
        None => true,
    };
    if blank(spec.statement.as_str()) && no_read_query {
        return Err(
            "statement must not be empty (or set `read_query` for a resource_template read binding)".to_owned(),
        );
    }
    if spec.query.timeout_ms == 0 {
        return Err("query.timeout_ms must be greater than 0".to_owned());
    }
    if spec.query.max_rows == 0 {
        return Err("query.max_rows must be greater than 0".to_owned());
    }
    Ok(())
}

fn check_credentials(spec: &BigQueryBackendSpec) -> (r: Result<(), String>)
    ensures
        refusal(r) == credentials_fault(*spec),
{
    let key = spec.auth.credentials_json.as_str();
    if starts_with(key, "cred://") {
        return Err(
            "auth.credentials_json must not be a cred:// URI — per-caller credentials are unsupported (the connection is one service identity); use ${env.X} / vault:// (resolved at config load) instead".to_owned(),
        );
    }
    if blank(key) {
        return Err("auth.credentials_json must not be empty for mode service_account".to_owned());
    }
    Ok(())
}

fn off_surface_text(field: &str, surface: Surface) -> (r: String)
    ensures
        r@ == off_surface(field@, surface),
{
    let mut m = field.to_owned();
    m.append(" is only valid with `surface: resource` (this binding is `surface: ");
    m.append(surface.as_str());
    m.append("`)");
    m
}

fn check_uri(spec: &BigQueryBackendSpec) -> (r: Result<(), String>)
    ensures
        refusal(r) == uri_fault(*spec),
{
    if let Some(u) = &spec.uri {
        if spec.surface != Surface::Resource {
            return Err(off_surface_text("`uri`", spec.surface));
        }
        if blank(u.as_str()) {
            return Err("`uri` must not be empty".to_owned());
        }
    }
    Ok(())
}

fn check_read_query(spec: &BigQueryBackendSpec, verdict: &Result<(), String>) -> (r: Result<
    (),
    String,
>)
    ensures
        refusal(r) == read_query_fault(*spec, *verdict),
{
    if let Some(q) = &spec.read_query {
        if blank(q.as_str()) {
            return Err("`read_query` must not be empty".to_owned());
        }
        if spec.surface != Surface::Resource {
            return Err(off_surface_text("`read_query`", spec.surface));
        }
        if contains(&chars_of(q.as_str()), "cred://") {
            return Err(
                "`read_query` must not contain a bare cred:// URI — use ${cred://…} / ${env.X} (resolved at config load)".to_owned(),
            );
        }
        return guarded(spec.query.read_only, verdict);
    }
    Ok(())
}

fn check_listing(spec: &BigQueryBackendSpec, verdict: &Result<(), String>) -> (r: Result<
    (),
    String,
>)
    ensures
        refusal(r) == listing_fault(*spec, *verdict),
{
    if let Some(q) = &spec.list_query {
        if let Err(m) = validate_list_query(q) {
            return Err(m);
        }
        return guarded(spec.query.read_only, verdict);
    }
    Ok(())
}

fn check_completions(spec: &BigQueryBackendSpec, verdicts: &Vec<Result<(), String>>) -> (r: Result<
    (),
    String,
>)
    requires
        verdicts@.len() == spec.variable_completions@.len(),
    ensures
        refusal(r) == completions_fault(
            spec.variable_completions@,
            spec.query.read_only,
            verdicts@,
            0,
        ),
{
    let table = &spec.variable_completions;
    let mut i: usize = 0;
    let n: usize = table.len();
    while i < n
        invariant
            i <= n,
            n == table@.len(),
            verdicts@.len() == n,
            *table == spec.variable_completions,
            completions_fault(table@, spec.query.read_only, verdicts@, 0) == completions_fault(
                table@,
                spec.query.read_only,
                verdicts@,
                i as int,
            ),
        decreases n - i,
    {
        if let Err(m) = validate_completion(table.name_at(i), table.value_at(i)) {
            return Err(m);
        }
        if let Err(m) = guarded(spec.query.read_only, &verdicts[i]) {
            return Err(m);
        }
        i = i + 1;
    }
    Ok(())
}

/// Fail-closed validation of a spec. `verdicts` holds what the read-only guard
/// says of its SQL texts, `compiled` what became of its parameter expressions.
pub fn validate_spec(
    spec: &BigQueryBackendSpec,
    verdicts: &GuardVerdicts,
    compiled: &Result<Vec<CompiledParam>, String>,
) -> (r: Result<(), String>)
    requires
        verdicts.completions@.len() == spec.variable_completions@.len(),
    ensures
        refusal(r) == registration_fault(*spec, *verdicts, *compiled),
{
    if let Err(m) = check_bounds(spec) {
        return Err(m);
    }
    if let Err(m) = check_credentials(spec) {
        return Err(m);
    }
    if !blank(spec.statement.as_str()) {
        if let Err(m) = guarded(spec.query.read_only, &verdicts.statement) {
            return Err(m);
        }
    }
    if let Err(m) = check_uri(spec) {
        return Err(m);
    }
    if let Err(m) = check_read_query(spec, &verdicts.read_query) {
        return Err(m);
    }
    if let Err(m) = check_listing(spec, &verdicts.list_query) {
        return Err(m);
    }
    if let Err(m) = check_completions(spec, &verdicts.completions) {
        return Err(m);
    }
    if let Err(m) = compiled {
        return Err(m.clone());
    }
    Ok(())
}

/// Where every listed text of the spec that is there passes the guard, and
/// everything else is in order.
pub open spec fn is_acceptable(
    spec: BigQueryBackendSpec,
    verdicts: GuardVerdicts,
    compiled: Result<Vec<CompiledParam>, String>,
) -> bool {
    let guarded = spec.query.read_only;
    let on_resource = spec.surface == Surface::Resource;
    &&& !is_blank(spec.project_id@)
    &&& !is_blank(spec.statement@) || !absent_or_blank(spec.read_query)
    &&& spec.query.timeout_ms > 0
    &&& spec.query.max_rows > 0
    &&& !begins_with(spec.auth.credentials_json@, "cred://"@)
    &&& !is_blank(spec.auth.credentials_json@)
    &&& guarded && !is_blank(spec.statement@) ==> verdicts.statement is Ok
    &&& spec.uri matches Some(u) ==> on_resource && !is_blank(u@)
    &&& spec.read_query matches Some(q) ==> {
        &&& on_resource
        &&& !is_blank(q@)
        &&& !occurs_in(q@, "cred://"@)
        &&& guarded ==> verdicts.read_query is Ok
    }
    &&& spec.list_query matches Some(q) ==> {
        &&& !is_blank(q.sql@)
        &&& 1 <= q.page_size <= 1000
        &&& guarded ==> verdicts.list_query is Ok
    }
    &&& forall|i: int|
        #![trigger spec.variable_completions@[i]]
        0 <= i < spec.variable_completions@.len() ==> {
            &&& completion_fault(
                spec.variable_completions@[i].0,
                spec.variable_completions@[i].1,
            ) is None
            &&& guarded ==> verdicts.completions@[i] is Ok
        }
    &&& compiled is Ok
}

/// No completion query is at fault exactly where none of them is.
proof fn lemma_completions_fault(
    entries: Seq<(Seq<char>, CompletionConfig)>,
    read_only: bool,
    verdicts: Seq<Result<(), String>>,
    i: int,
)
    requires
        0 <= i <= entries.len(),
    ensures
        completions_fault(entries, read_only, verdicts, i) is None <==> forall|k: int|
            #![trigger entries[k]]
            i <= k < entries.len() ==> completion_fault(entries[k].0, entries[k].1) is None && (
            read_only ==> verdicts[k] is Ok),
    decreases entries.len() - i,
{
    if i < entries.len() {
        lemma_completions_fault(entries, read_only, verdicts, i + 1);
        if completions_fault(entries, read_only, verdicts, i) is None {
            assert forall|k: int|
                #![trigger entries[k]]
                i <= k < entries.len() implies completion_fault(entries[k].0, entries[k].1) is None
                && (read_only ==> verdicts[k] is Ok) by {
                if k > i {
                    assert(i + 1 <= k);
                }
            }
        } else {
            assert(entries[i] == entries[i]);
        }
    }
}

/// A spec is registered exactly where it is acceptable: under the read-only
/// guard none of its SQL texts is taken that the guard refuses, a URI and a
/// read statement stand on the resource surface only, and no credential is a
/// per-caller reference.
pub proof fn law_registered_iff_acceptable(
    spec: BigQueryBackendSpec,
    verdicts: GuardVerdicts,
    compiled: Result<Vec<CompiledParam>, String>,
)
    requires
        verdicts.completions@.len() == spec.variable_completions@.len(),
    ensures
        registration_fault(spec, verdicts, compiled) is None <==> is_acceptable(
            spec,
            verdicts,
            compiled,
        ),
{
    lemma_completions_fault(
        spec.variable_completions@,
        spec.query.read_only,
        verdicts.completions@,
        0,
    );
}

/// A registered binding: its connection, its statements and its bounds.
#[derive(Debug, Clone)]
pub struct BigQueryProfile {
    pub project_id: String,
    pub dataset: Option<String>,
    pub location: Option<String>,
    /// The resolved service-account key JSON.
    pub credentials_json: String,
    /// Emulator endpoint; none in production.
    pub endpoint_override: Option<String>,
    pub statement: String,
    /// `compiled_params[i]` binds the i-th `?`.
    pub compiled_params: Vec<CompiledParam>,
    pub use_legacy_sql: bool,
    pub read_only: bool,
    pub maximum_bytes_billed: Option<u64>,
    pub max_rows: usize,
    pub dry_run: bool,
    /// Price per TiB (USD), as the bits of a double.
    pub price_per_tib_usd: Option<u64>,
    pub timeout_ms: u64,
    pub surface: Surface,
    pub surface_uri: Option<String>,
    pub list_query: Option<ListQueryConfig>,
    pub read_query: Option<String>,
    pub variable_completions: NameTable<CompletionConfig>,
}

/// The profile that a spec becomes.
pub open spec fn profile_of(spec: BigQueryBackendSpec, compiled: Vec<CompiledParam>) -> BigQueryProfile {
    BigQueryProfile {
        project_id: spec.project_id,
        dataset: spec.dataset,
        location: spec.location,
        credentials_json: spec.auth.credentials_json,
        endpoint_override: None,
        statement: spec.statement,
        compiled_params: compiled,
        use_legacy_sql: spec.query.use_legacy_sql,
        read_only: spec.query.read_only,
        maximum_bytes_billed: spec.query.maximum_bytes_billed,
        max_rows: spec.query.max_rows,
        dry_run: spec.query.dry_run,
        price_per_tib_usd: spec.query.price_per_tib_usd,
        timeout_ms: spec.query.timeout_ms,
        surface: spec.surface,
        surface_uri: spec.uri,
        list_query: spec.list_query,
        read_query: spec.read_query,
        variable_completions: spec.variable_completions,
    }
}

/// What holds of every registered profile.
pub open spec fn is_sound(p: BigQueryProfile) -> bool {
    &&& !is_blank(p.project_id@)
    &&& !is_blank(p.credentials_json@)
    &&& !begins_with(p.credentials_json@, "cred://"@)
    &&& !is_blank(p.statement@) || !absent_or_blank(p.read_query)
    &&& p.timeout_ms > 0
    &&& p.max_rows > 0
    &&& p.surface_uri is Some ==> p.surface == Surface::Resource
    &&& p.read_query is Some ==> p.surface == Surface::Resource
    &&& p.list_query matches Some(q) ==> 1 <= q.page_size <= 1000
}

/// Every profile of the table is sound.
pub open spec fn all_sound(profiles: Seq<(Seq<char>, BigQueryProfile)>) -> bool {
    forall|i: int| 0 <= i < profiles.len() ==> is_sound((#[trigger] profiles[i]).1)
}

/// What is found in a table of sound profiles is sound.
proof fn lemma_found_is_sound(profiles: Seq<(Seq<char>, BigQueryProfile)>, name: Seq<char>)
    requires
        all_sound(profiles),
    ensures
        lookup(profiles, name) matches Some(p) ==> is_sound(p),
    decreases profiles.len(),
{
    if profiles.len() > 0 {
        assert(is_sound(profiles[0].1));
        let rest = profiles.drop_first();
        assert forall|i: int| 0 <= i < rest.len() implies is_sound((#[trigger] rest[i]).1) by {
            assert(rest[i] == profiles[i + 1]);
        }
        lemma_found_is_sound(rest, name);
    }
}

/// A table of sound profiles stays one when a sound profile is stored.
proof fn lemma_stored_sound(
    profiles: Seq<(Seq<char>, BigQueryProfile)>,
    name: Seq<char>,
    p: BigQueryProfile,
)
    requires
        all_sound(profiles),
        is_sound(p),
    ensures
        all_sound(stored(profiles, name, p)),
    decreases profiles.len(),
{
    let t = stored(profiles, name, p);
    if profiles.len() > 0 {
        assert(is_sound(profiles[0].1));
        let rest = profiles.drop_first();
        assert forall|i: int| 0 <= i < rest.len() implies is_sound((#[trigger] rest[i]).1) by {
            assert(rest[i] == profiles[i + 1]);
        }
        lemma_stored_sound(rest, name, p);
        assert forall|i: int| 0 <= i < t.len() implies is_sound((#[trigger] t[i]).1) by {
            if profiles[0].0 == name {
                if i > 0 {
                    assert(t[i] == rest[i - 1]);
                }
            } else if comes_before(name, profiles[0].0) {
                if i > 0 {
                    assert(t[i] == profiles[i - 1]);
                }
            } else if i > 0 {
                assert(t[i] == stored(rest, name, p)[i - 1]);
            }
        }
    }
}

/// What registering a spec does: one at fault is refused with its first fault
/// and changes nothing, any other is stored as its profile.
pub open spec fn registered(
    before: Seq<(Seq<char>, BigQueryProfile)>,
    backend_name: Seq<char>,
    spec: BigQueryBackendSpec,
    verdicts: GuardVerdicts,
    compiled: Result<Vec<CompiledParam>, String>,
    r: Result<(), BackendError>,
    after: Seq<(Seq<char>, BigQueryProfile)>,
) -> bool {
    match registration_fault(spec, verdicts, compiled) {
        Some(m) => {
            &&& r matches Err(BackendError::InvalidSpec { message }) && message@ == m
            &&& after == before
        },
        None => {
            &&& r is Ok
            &&& compiled matches Ok(params) && after == stored(
                before,
                backend_name,
                profile_of(spec, params),
            )
        },
    }
}

/// What the plugin says of itself.
#[derive(Debug, Clone, Copy, PartialEq, Eq)]
pub struct PluginManifest {
    pub id: &'static str,
    pub name: &'static str,
    pub class: &'static str,
}

/// The bindings of `kind: "bigquery"` by name.
#[derive(Debug)]
pub struct BigQueryBackendPlugin {
    profiles: NameTable<BigQueryProfile>,
}

impl View for BigQueryBackendPlugin {
    type V = Seq<(Seq<char>, BigQueryProfile)>;

    closed spec fn view(&self) -> Seq<(Seq<char>, BigQueryProfile)> {
        self.profiles@
    }
}

impl Default for BigQueryBackendPlugin {
    fn default() -> (r: BigQueryBackendPlugin)
        ensures
            r@ == Seq::<(Seq<char>, BigQueryProfile)>::empty(),
    {
        BigQueryBackendPlugin::new()
    }
}

impl BigQueryBackendPlugin {
    /// Every registered profile is sound.
    #[verifier::type_invariant]
    spec fn holds_sound_profiles(self) -> bool {
        all_sound(self.profiles@)
    }

    /// A plugin without bindings.
    pub fn new() -> (r: BigQueryBackendPlugin)
        ensures
            r@ == Seq::<(Seq<char>, BigQueryProfile)>::empty(),
    {
        BigQueryBackendPlugin { profiles: NameTable::new() }
    }

    /// What the plugin says of itself.
    pub fn manifest(&self) -> (r: PluginManifest)
        ensures
            r.id@ == "dev.mcpg.backend.bigquery"@,
            r.name@ == "BigQuery Binding"@,
            r.class@ == "Backend"@,
    {
        PluginManifest {
            id: "dev.mcpg.backend.bigquery",
            name: "BigQuery Binding",
            class: "Backend",
        }
    }

    /// The binding kind that the plugin serves.
    pub fn kind(&self) -> (r: &'static str)
        ensures
            r@ == "bigquery"@,
    {
        "bigquery"
    }

    /// Register a binding, in place of one of the same name. A spec that is at
    /// fault is refused with its first fault and changes nothing.
    pub fn register_profile(
        &mut self,
        backend_name: &str,
        spec: BigQueryBackendSpec,
        verdicts: &GuardVerdicts,
        compiled: Result<Vec<CompiledParam>, String>,
    ) -> (r: Result<(), BackendError>)
        requires
            verdicts.completions@.len() == spec.variable_completions@.len(),
        ensures
            registered(old(self)@, backend_name@, spec, *verdicts, compiled, r, final(self)@),
    {
        if let Err(message) = validate_spec(&spec, verdicts, &compiled) {
            return Err(BackendError::InvalidSpec { message });
        }
        match compiled {
            Err(message) => Err(BackendError::InvalidSpec { message }),
            Ok(params) => {
                let profile = BigQueryProfile {
                    project_id: spec.project_id,
                    dataset: spec.dataset,
                    location: spec.location,
                    credentials_json: spec.auth.credentials_json,
                    endpoint_override: None,
                    statement: spec.statement,
                    compiled_params: params,
                    use_legacy_sql: spec.query.use_legacy_sql,
                    read_only: spec.query.read_only,
                    maximum_bytes_billed: spec.query.maximum_bytes_billed,
                    max_rows: spec.query.max_rows,
                    dry_run: spec.query.dry_run,
                    price_per_tib_usd: spec.query.price_per_tib_usd,
                    timeout_ms: spec.query.timeout_ms,
                    surface: spec.surface,
                    surface_uri: spec.uri,
                    list_query: spec.list_query,
                    read_query: spec.read_query,
                    variable_completions: spec.variable_completions,
                };
                proof {
                    use_type_invariant(&*self);
                    law_registered_iff_acceptable(spec, *verdicts, compiled);
                    assert(profile == profile_of(spec, params));
                    lemma_stored_sound(self@, backend_name@, profile);
                }
                let mut profiles = NameTable::new();
                std::mem::swap(&mut profiles, &mut self.profiles);
                profiles.insert(backend_name.to_owned(), profile);
                self.profiles = profiles;
                Ok(())
            },
        }
    }

    /// The profile of a binding.
    pub fn profile(&self, backend_name: &str) -> (r: Result<&BigQueryProfile, BackendError>)
        ensures
            match lookup(self@, backend_name@) {
                Some(p) => r == Ok::<&BigQueryProfile, BackendError>(&p) && is_sound(p),
                None => r matches Err(BackendError::ProfileNotFound { backend_name: name })
                    && name@ == backend_name@,
            },
    {
        proof {
            use_type_invariant(self);
            lemma_found_is_sound(self@, backend_name@);
        }
        match self.profiles.get(backend_name) {
            Some(p) => Ok(p),
            None => Err(BackendError::ProfileNotFound { backend_name: backend_name.to_owned() }),
        }
    }

    /// What audit records say of the plugin.
    pub fn audit_metadata(&self) -> (r: Json)
        ensures
            r@ == JsonView::Object(
                no_members().push(("bigquery.transport"@, JsonView::Str("plugin"@))),
            ),
    {
        JsonObject::new().with("bigquery.transport", Json::text("plugin")).build()
    }

    /// JSON Schema of the envelope that a binding emits: the estimate envelope
    /// for a dry-run binding, the row envelope for every other and for a name
    /// that is not registered.
    pub fn output_schema(&self, backend_name: &str) -> (r: Json)
        ensures
            r@ == output_schema_of(lookup(self@, backend_name@)),
    {
        let dry_run = match self.profiles.get(backend_name) {
            Some(p) => p.dry_run,
            None => false,
        };
        if dry_run {
            estimate_envelope_schema()
        } else {
            result_envelope_schema()
        }
    }

    /// JSON Schema of a binding's arguments: the names that its parameter
    /// expressions refer to, untyped and optional, in an open object.
    pub fn input_schema(&self, backend_name: &str) -> (r: Json)
        ensures
            r@ == input_schema_for(lookup(self@, backend_name@)),
    {
        let names = match self.profiles.get(backend_name) {
            Some(p) => arguments_referenced_by_params(p.compiled_params.as_slice()),
            None => {
                let none: Vec<String> = Vec::new();
                assert(texts(none@) =~= Seq::<Seq<char>>::empty());
                none
            },
        };
        params_input_schema(names.as_slice())
    }
}

/// The output schema of a binding, or of a name that is not registered.
pub open spec fn output_schema_of(profile: Option<BigQueryProfile>) -> JsonView {
    match profile {
        Some(p) if p.dry_run => envelope_schema(estimate_properties()),
        _ => envelope_schema(result_properties()),
    }
}

/// The input schema of a binding, or of a name that is not registered.
pub open spec fn input_schema_for(profile: Option<BigQueryProfile>) -> JsonView {
    match profile {
        Some(p) => input_schema_of(
            first_seen(
                all_argument_names(p.compiled_params@, p.compiled_params@.len() as int),
            ),
        ),
        None => input_schema_of(Seq::empty()),
    }
}

/// A registered binding is found under its name, and every other binding stays
/// as it was.
pub proof fn law_registered_then_found(
    before: Seq<(Seq<char>, BigQueryProfile)>,
    name: Seq<char>,
    profile: BigQueryProfile,
    other: Seq<char>,
)
    ensures
        lookup(stored(before, name, profile), name) == Some(profile),
        other != name ==> lookup(stored(before, name, profile), other) == lookup(before, other),
{
    law_stored_then_lookup(before, name, profile, other);
}

} // verus!

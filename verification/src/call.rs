//! What a call brings and takes away: its tool name and arguments, its bound
//! parameters, the requests made for it, and its payload.

use vstd::prelude::*;

use crate::bigquery::{
    dry_run_request, query_request, wire_count, JobSettings, QueryParameter, QueryRequest,
};
use crate::envelope::{is_retryable, retryable_failure};
use crate::json::{json_views, no_members, Json, JsonObject, JsonView};
use crate::keyed::lookup;
use crate::observe::Outcome;
use crate::outside::{json_bytes, parse_json_bytes, parsed_bytes, sent_document, written_bytes};
use crate::params::{
    all_scalar, bound, is_scalar, json_to_bq_param, lowered, not_scalar_text, parameter_views,
};
use crate::plugin::{BackendError, BigQueryBackendPlugin, BigQueryProfile};
use crate::surface::Surface;
use crate::text::{
    ascii_lower, borrowed, contains, lower_chars, occurs_in, same_ignoring_ascii_case, some_chars,
    some_text,
};

verus! {

/// The value of the first header from position `i` on with the tool's name in
/// it, whatever the ASCII case of its key.
pub open spec fn tool_header(headers: Seq<(String, String)>, i: int) -> Option<Seq<char>>
    decreases headers.len() - i,
{
    if i < 0 || i >= headers.len() {
        None
    } else if ascii_lower(headers[i].0@) == ascii_lower("mcpg-tool-name"@) {
        Some(headers[i].1@)
    } else {
        tool_header(headers, i + 1)
    }
}

/// The called tool's name.
pub open spec fn called_tool(headers: Seq<(String, String)>, backend_name: Seq<char>) -> Seq<char> {
    match tool_header(headers, 0) {
        Some(name) => name,
        None => backend_name,
    }
}

/// The name of the called tool: from the headers, else the binding's own.
pub fn tool_name(headers: &Vec<(String, String)>, backend_name: &str) -> (r: String)
    ensures
        r@ == called_tool(headers@, backend_name@),
{
    let mut i: usize = 0;
    while i < headers.len()
        invariant
            i <= headers.len(),
            tool_header(headers@, 0) == tool_header(headers@, i as int),
        decreases headers.len() - i,
    {
        if same_ignoring_ascii_case(headers[i].0.as_str(), "mcpg-tool-name") {
            return headers[i].1.clone();
        }
        i = i + 1;
    }
    backend_name.to_owned()
}

/// A read document where there is one, else an empty object.
pub open spec fn document_or_empty(document: Option<JsonView>) -> JsonView {
    match document {
        Some(d) => d,
        None => JsonView::Object(no_members()),
    }
}

/// A read document where there is one, else an empty object.
pub fn arguments_or_empty(document: Option<Json>) -> (r: Json)
    ensures
        r@ == document_or_empty(
            match document {
                Some(d) => Some(d@),
                None => None,
            },
        ),
{
    match document {
        Some(d) => d,
        None => JsonObject::new().build(),
    }
}

/// The arguments that a payload holds.
pub open spec fn payload_arguments(payload: Seq<u8>) -> JsonView {
    if payload.len() == 0 {
        JsonView::Object(no_members())
    } else {
        document_or_empty(parsed_bytes(payload))
    }
}

/// The arguments of a call: its payload as a JSON document; an empty object
/// where the payload is empty or is none.
pub fn request_arguments(payload: &[u8]) -> (r: Json)
    ensures
        r@ == payload_arguments(payload@),
{
    if payload.len() == 0 {
        return JsonObject::new().build();
    }
    arguments_or_empty(parse_json_bytes(payload))
}

/// Why the parameters cannot be bound: the evaluation failed, or one of the
/// values is not a scalar.
pub open spec fn binding_fault(evaluated: Result<Vec<Json>, String>) -> Option<Seq<char>> {
    match evaluated {
        Err(m) => Some("evaluating params: "@ + m@),
        Ok(values) => if all_scalar(json_views(values@)) {
            None
        } else {
            Some("binding params: "@ + not_scalar_text())
        },
    }
}

/// Lower the evaluated parameters. One that is not a scalar refuses the call.
pub fn bind_parameters(evaluated: Result<Vec<Json>, String>) -> (r: Result<
    Vec<QueryParameter>,
    String,
>)
    ensures
        match binding_fault(evaluated) {
            Some(m) => r matches Err(message) && message@ == m,
            None => r matches Ok(parameters) && evaluated matches Ok(values) && parameter_views(
                parameters@,
            ) == bound(json_views(values@)),
        },
{
    match evaluated {
        Err(cause) => {
            let mut m = "evaluating params: ".to_owned();
            m.append(cause.as_str());
            Err(m)
        },
        Ok(values) => {
            let mut parameters: Vec<QueryParameter> = Vec::new();
            let mut i: usize = 0;
            while i < values.len()
                invariant
                    i <= values.len(),
                    evaluated == Ok::<Vec<Json>, String>(values),
                    parameters@.len() == i,
                    forall|j: int|
                        0 <= j < i ==> is_scalar(#[trigger] values@[j]@) && parameters@[j]@
                            == lowered(values@[j]@),
                decreases values.len() - i,
            {
                match json_to_bq_param(&values[i]) {
                    Ok(p) => {
                        parameters.push(p);
                    },
                    Err(cause) => {
                        assert(!is_scalar(json_views(values@)[i as int]));
                        let mut m = "binding params: ".to_owned();
                        m.append(cause.as_str());
                        return Err(m);
                    },
                }
                i = i + 1;
            }
            assert(parameter_views(parameters@) =~= bound(json_views(values@)));
            Ok(parameters)
        },
    }
}

/// The statement that a call runs: the single-row read of a resource binding
/// that has one, else the binding's statement.
pub open spec fn statement_to_run(p: BigQueryProfile) -> Seq<char> {
    match (p.surface, p.read_query) {
        (Surface::Resource, Some(q)) => q@,
        _ => p.statement@,
    }
}

/// The statement that a call runs.
pub fn effective_statement(p: &BigQueryProfile) -> (r: &str)
    ensures
        r@ == statement_to_run(*p),
{
    match (p.surface, &p.read_query) {
        (Surface::Resource, Some(q)) => q.as_str(),
        _ => p.statement.as_str(),
    }
}

/// The settings are those of the profile.
pub open spec fn settings_match(s: JobSettings, p: BigQueryProfile) -> bool {
    &&& s.project_id@ == p.project_id@
    &&& some_chars(s.dataset) == some_text(p.dataset)
    &&& some_chars(s.location) == some_text(p.location)
    &&& s.use_legacy_sql == p.use_legacy_sql
    &&& s.maximum_bytes_billed == p.maximum_bytes_billed
    &&& s.timeout_ms == p.timeout_ms
}

/// Where and how the statements of a profile run.
pub fn settings_of(p: &BigQueryProfile) -> (r: JobSettings)
    ensures
        settings_match(r, *p),
{
    JobSettings {
        project_id: p.project_id.as_str(),
        dataset: borrowed(&p.dataset),
        location: borrowed(&p.location),
        use_legacy_sql: p.use_legacy_sql,
        maximum_bytes_billed: p.maximum_bytes_billed,
        timeout_ms: p.timeout_ms,
    }
}

/// A request made from a profile: the given statement and parameters under the
/// profile's settings.
pub open spec fn profile_request(
    request: QueryRequest,
    p: BigQueryProfile,
    statement: Seq<char>,
    parameters: Seq<QueryParameter>,
) -> bool {
    &&& request.query@ == statement
    &&& request.query_parameters@ == parameters
    &&& request.use_legacy_sql == p.use_legacy_sql
    &&& request.timeout_ms == Some(wire_count(p.timeout_ms as nat))
    &&& request.maximum_bytes_billed == (match p.maximum_bytes_billed {
        Some(b) => Some(wire_count(b as nat)),
        None => None,
    })
    &&& request.location@ == (match p.location {
        Some(l) => l@,
        None => Seq::empty(),
    })
    &&& match p.dataset {
        Some(d) => request.default_dataset matches Some(reference) && reference.project_id@
            == p.project_id@ && reference.dataset_id@ == d@,
        None => request.default_dataset is None,
    }
    &&& if parameters.len() == 0 {
        request.parameter_mode is None
    } else {
        request.parameter_mode matches Some(m) && m@ == "POSITIONAL"@
    }
}

/// The request that runs a statement under a profile's settings.
pub fn run_request(
    p: &BigQueryProfile,
    statement: &str,
    max_rows: usize,
    parameters: Vec<QueryParameter>,
) -> (r: QueryRequest)
    ensures
        profile_request(r, *p, statement@, parameters@),
        r.max_results == Some(wire_count(max_rows as nat)),
        r.dry_run is None,
{
    let settings = settings_of(p);
    query_request(&settings, statement, max_rows, parameters)
}

/// The request that plans a statement under a profile's settings.
pub fn plan_request(p: &BigQueryProfile, parameters: Vec<QueryParameter>) -> (r: QueryRequest)
    ensures
        profile_request(r, *p, p.statement@, parameters@),
        r.max_results is None,
        r.dry_run == Some(true),
{
    let settings = settings_of(p);
    dry_run_request(&settings, p.statement.as_str(), parameters)
}

/// How a failed call ended, by its message: a timeout where the message says
/// so, else by the kind of the failure.
pub open spec fn failure_outcome(message: Seq<char>) -> Outcome {
    if occurs_in(ascii_lower(message), "timed out"@) || occurs_in(
        ascii_lower(message),
        "timeout"@,
    ) {
        Outcome::Timeout
    } else if is_retryable(message) {
        Outcome::TransportError
    } else {
        Outcome::BigQueryError
    }
}

/// How a failed call ended, by its message.
pub fn outcome_of_failure(message: &str) -> (r: Outcome)
    ensures
        r == failure_outcome(message@),
{
    let lower = lower_chars(message);
    if contains(&lower, "timed out") || contains(&lower, "timeout") {
        Outcome::Timeout
    } else if retryable_failure(message) {
        Outcome::TransportError
    } else {
        Outcome::BigQueryError
    }
}

/// A call of a binding.
#[derive(Debug)]
pub struct Call {
    pub backend_name: String,
    pub tool_name: String,
    pub arguments: Json,
}

/// What a call is taken up as: the called tool with the arguments of the
/// payload where the binding is registered, else a refusal that names it.
pub open spec fn call_begun(
    profiles: Seq<(Seq<char>, BigQueryProfile)>,
    backend_name: Seq<char>,
    headers: Seq<(String, String)>,
    payload: Seq<u8>,
    r: Result<Call, BackendError>,
) -> bool {
    match lookup(profiles, backend_name) {
        Some(_) => r matches Ok(call) && {
            &&& call.backend_name@ == backend_name
            &&& call.tool_name@ == called_tool(headers, backend_name)
            &&& call.arguments@ == payload_arguments(payload)
        },
        None => r matches Err(BackendError::ProfileNotFound { backend_name: name }) && name@
            == backend_name,
    }
}

/// Take a call up: it must be of a registered binding.
pub fn begin_call(
    plugin: &BigQueryBackendPlugin,
    backend_name: &str,
    headers: &Vec<(String, String)>,
    payload: &[u8],
) -> (r: Result<Call, BackendError>)
    ensures
        call_begun(plugin@, backend_name@, headers@, payload@, r),
{
    match plugin.profile(backend_name) {
        Err(e) => Err(e),
        Ok(_) => Ok(
            Call {
                backend_name: backend_name.to_owned(),
                tool_name: tool_name(headers, backend_name),
                arguments: request_arguments(payload),
            },
        ),
    }
}

/// The answer to a call, in bytes.
#[derive(Debug)]
pub struct BackendResponse {
    pub payload: Vec<u8>,
    pub truncated: bool,
}

/// What a written envelope is answered as: its bytes, or a failure of the call
/// where it could not be written.
pub open spec fn payload_settled(
    written: Result<Vec<u8>, String>,
    r: Result<BackendResponse, BackendError>,
) -> bool {
    match written {
        Ok(payload) => r matches Ok(response) && response.payload == payload
            && !response.truncated,
        Err(cause) => r matches Err(BackendError::Transport { message }) && message@
            == "BigQuery plugin envelope serialization failed: "@ + cause@,
    }
}

/// A written envelope as the answer to a call. An envelope that could not be
/// written is a failure of the call.
pub fn payload_or_failure(written: Result<Vec<u8>, String>) -> (r: Result<
    BackendResponse,
    BackendError,
>)
    ensures
        payload_settled(written, r),
{
    match written {
        Ok(payload) => Ok(BackendResponse { payload, truncated: false }),
        Err(cause) => {
            let mut message = "BigQuery plugin envelope serialization failed: ".to_owned();
            message.append(cause.as_str());
            Err(BackendError::Transport { message })
        },
    }
}

/// What an envelope is answered as: the bytes of the document that is sent.
pub open spec fn finalized(
    envelope: JsonView,
    r: Result<BackendResponse, BackendError>,
) -> bool {
    r matches Ok(response) && response.payload@ == written_bytes(sent_document(envelope))
        && !response.truncated
}

/// Write an envelope as the answer to a call.
pub fn finalize_payload(envelope: &Json) -> (r: Result<BackendResponse, BackendError>)
    ensures
        finalized(envelope@, r),
{
    payload_or_failure(json_bytes(envelope))
}

/// A failed call is never labelled a success; one that says it timed out is
/// labelled so, and one labelled a transport error is retryable.
pub proof fn law_failure_labels(message: Seq<char>)
    ensures
        failure_outcome(message) != Outcome::Success,
        failure_outcome(message) == Outcome::Timeout <==> occurs_in(
            ascii_lower(message),
            "timed out"@,
        ) || occurs_in(ascii_lower(message), "timeout"@),
        failure_outcome(message) == Outcome::TransportError ==> is_retryable(message),
        failure_outcome(message) == Outcome::BigQueryError ==> !is_retryable(message),
{
}

} // verus!
